//! The per-device table of renderers that the vello demo keeps: one slot
//! per graphics device, filled only for the device its surface runs on.
use vstd::prelude::*;

verus! {

/// `device_count` slots, all empty but slot `device`, which holds `value`.
pub fn device_slots<T>(device_count: usize, device: usize, value: T) -> (slots: Vec<Option<T>>)
    requires
        device < device_count,
    ensures
        slots@.len() == device_count,
        slots@[device as int] == Some(value),
        forall|i: int| 0 <= i < device_count && i != device ==> slots@[i] is None,
{
    let mut slots: Vec<Option<T>> = Vec::new();
    let mut index: usize = 0;
    while index < device_count
        invariant
            index <= device_count,
            slots@.len() == index,
            forall|i: int| 0 <= i < index ==> slots@[i] is None,
        decreases device_count - index,
    {
        slots.push(None);
        index = index + 1;
    }
    slots.set(device, Some(value));
    slots
}

} // verus!
