//! The raster that the tiny-skia demo draws into: `tiny_skia::Pixmap`, an
//! owned buffer of premultiplied RGBA bytes, and the calls that the frame
//! logic makes on it.
use vstd::prelude::*;
use tiny_skia::Pixmap;

verus! {

#[verifier::external_type_specification]
#[verifier::external_body]
pub struct ExPixmap(tiny_skia::Pixmap);

/// The bytes that a pixmap holds: four per pixel, row after row, in the
/// order red, green, blue, alpha.
pub uninterp spec fn pixmap_bytes(pixmap: Pixmap) -> Seq<u8>;

/// The width and the height, in pixels, that a pixmap was made with.
pub uninterp spec fn pixmap_size(pixmap: Pixmap) -> (u32, u32);

/// The byte length of a `width` by `height` pixmap.
pub open spec fn pixmap_len(width: u32, height: u32) -> int {
    4 * width * height
}

/// Whether `tiny_skia::Pixmap::new` accepts the size: both sides positive,
/// a row of at most `i32::MAX` bytes, and the whole buffer within `usize`.
pub open spec fn pixmap_size_ok(width: u32, height: u32) -> bool {
    &&& 0 < width
    &&& 0 < height
    &&& 4 * width <= i32::MAX
    &&& pixmap_len(width, height) <= usize::MAX
}

/// `tiny_skia::Pixmap::new(width, height)`. Its source returns `None` unless
/// both sides are positive, `4 * width` fits in an `i32` and the byte length
/// `4 * width * height` fits in a `usize`; otherwise it allocates that many
/// zero bytes (transparent black). The allocation itself panics for a length
/// above `isize::MAX`, which `requires` leaves out; that the allocator may
/// abort for want of memory is not stated.
#[verifier::external_body]
pub(crate) fn pixmap_new(width: u32, height: u32) -> (result: Option<Pixmap>)
    requires
        pixmap_size_ok(width, height) ==> pixmap_len(width, height) <= isize::MAX,
    ensures
        result is Some <==> pixmap_size_ok(width, height),
        result matches Some(pixmap) ==> {
            &&& pixmap_size(pixmap) == (width, height)
            &&& pixmap_bytes(pixmap) == Seq::new(pixmap_len(width, height) as nat, |i: int| 0u8)
        },
{
    Pixmap::new(width, height)
}

/// `tiny_skia::Pixmap::width`: the width that the pixmap was made with.
#[verifier::external_body]
pub(crate) fn pixmap_width(pixmap: &Pixmap) -> (width: u32)
    ensures
        width == pixmap_size(*pixmap).0,
{
    pixmap.width()
}

/// `tiny_skia::Pixmap::height`: the height that the pixmap was made with.
#[verifier::external_body]
pub(crate) fn pixmap_height(pixmap: &Pixmap) -> (height: u32)
    ensures
        height == pixmap_size(*pixmap).1,
{
    pixmap.height()
}

/// `tiny_skia::Pixmap::data`: the pixmap's bytes. A pixmap holds at least
/// `4 * width * height` bytes: `Pixmap::new` allocates exactly that many,
/// while `PixmapRef::from_bytes(..).to_owned()` and
/// `PixmapMut::from_bytes(..).to_owned()` copy any slice at least that long.
#[verifier::external_body]
pub(crate) fn pixmap_data(pixmap: &Pixmap) -> (bytes: &[u8])
    ensures
        bytes@ == pixmap_bytes(*pixmap),
        bytes@.len() >= pixmap_len(pixmap_size(*pixmap).0, pixmap_size(*pixmap).1),
{
    pixmap.data()
}

/// The bytes of a pixmap whose every pixel is the RGBA colour given.
pub open spec fn solid_bytes(len: nat, red: u8, green: u8, blue: u8, alpha: u8) -> Seq<u8> {
    Seq::new(len, |i: int| if i % 4 == 0 { red } else if i % 4 == 1 { green } else if i % 4 == 2 { blue } else { alpha })
}

/// `tiny_skia::Pixmap::fill` with `tiny_skia::Color::from_rgba8(red, green,
/// blue, alpha)`. The source premultiplies the colour and writes it to every
/// four-byte pixel of the whole buffer, through `bytemuck::cast_slice_mut`,
/// which panics when the byte length is not a multiple of 4; `requires`
/// leaves that out. The size does not change. For an opaque colour
/// (`alpha == 255`) premultiplying keeps the channels, and each channel `c`
/// comes back as `(c / 255 * 255 + 0.5) as u8 == c`, so every pixel holds
/// exactly the bytes given. For a translucent colour the rounded
/// premultiplied bytes are not stated.
#[verifier::external_body]
pub(crate) fn pixmap_fill(pixmap: &mut Pixmap, red: u8, green: u8, blue: u8, alpha: u8)
    requires
        pixmap_bytes(*old(pixmap)).len() % 4 == 0,
    ensures
        pixmap_size(*final(pixmap)) == pixmap_size(*old(pixmap)),
        pixmap_bytes(*final(pixmap)).len() == pixmap_bytes(*old(pixmap)).len(),
        alpha == 255 ==> pixmap_bytes(*final(pixmap)) == solid_bytes(
            pixmap_bytes(*old(pixmap)).len(),
            red,
            green,
            blue,
            alpha,
        ),
{
    pixmap.fill(tiny_skia::Color::from_rgba8(red, green, blue, alpha))
}

} // verus!
