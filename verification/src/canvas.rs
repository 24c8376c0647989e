//! The settings the tiny-skia demo is started with, and what it derives
//! from them.
use vstd::prelude::*;
use tiny_skia::Pixmap;
use crate::pixmap::{pixmap_bytes, pixmap_len, pixmap_new, pixmap_size, pixmap_size_ok};

verus! {

/// Canvas size in pixels, rectangle size and number of rectangles.
#[derive(Clone, Copy, Debug, PartialEq, Eq, Structural)]
pub struct CanvasConfig {
    pub canvas_width: u32,
    pub canvas_height: u32,
    pub box_size: u32,
    pub box_number: u32,
}

impl CanvasConfig {
    /// The settings given, as they are.
    pub fn new(canvas_width: u32, canvas_height: u32, box_size: u32, box_number: u32) -> (config: CanvasConfig)
        ensures
            config == (CanvasConfig { canvas_width, canvas_height, box_size, box_number }),
    {
        CanvasConfig { canvas_width, canvas_height, box_size, box_number }
    }

    /// The walls the rectangles bounce off, as the demo hands them to each
    /// rectangle: the canvas sides cast to `i16`, which keeps their low 16
    /// bits.
    pub fn rect_bounds(&self) -> (bounds: (i16, i16))
        ensures
            bounds == (self.canvas_width as i16, self.canvas_height as i16),
    {
        (self.canvas_width as i16, self.canvas_height as i16)
    }

    /// Whether a canvas pixmap can be made without the allocation itself
    /// failing: true on every 64-bit target, where a valid size never needs
    /// more than `isize::MAX` bytes.
    pub open spec fn pixmap_allocatable(self) -> bool {
        pixmap_size_ok(self.canvas_width, self.canvas_height) ==> pixmap_len(
            self.canvas_width,
            self.canvas_height,
        ) <= isize::MAX
    }

    /// A transparent black pixmap of the canvas size, or `None` where
    /// tiny-skia refuses the size (a zero side, a row over `i32::MAX` bytes,
    /// or more bytes than a `usize` counts).
    pub fn new_pixmap(&self) -> (pixmap: Option<Pixmap>)
        requires
            self.pixmap_allocatable(),
        ensures
            pixmap is Some <==> pixmap_size_ok(self.canvas_width, self.canvas_height),
            pixmap matches Some(p) ==> {
                &&& pixmap_size(p) == (self.canvas_width, self.canvas_height)
                &&& pixmap_bytes(p) == Seq::new(
                    pixmap_len(self.canvas_width, self.canvas_height) as nat,
                    |i: int| 0u8,
                )
            },
    {
        pixmap_new(self.canvas_width, self.canvas_height)
    }
}

/// On a 64-bit target every canvas pixmap that tiny-skia accepts can be
/// allocated.
pub proof fn lemma_pixmap_allocatable_on_64_bit(config: CanvasConfig)
    requires
        usize::BITS == 64,
    ensures
        config.pixmap_allocatable(),
{
    let w = config.canvas_width as int;
    let h = config.canvas_height as int;
    if pixmap_size_ok(config.canvas_width, config.canvas_height) {
        assert(4 * w * h <= (i32::MAX as int) * 0xffff_ffff) by (nonlinear_arith)
            requires 4 * w <= i32::MAX, 0 <= h <= 0xffff_ffff, 0 <= w;
        assert(isize::MAX == 0x7fff_ffff_ffff_ffff) by {
            assert(usize::BITS == 64);
        }
    }
}

} // verus!
