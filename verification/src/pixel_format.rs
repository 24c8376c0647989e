//! Conversion of RGBA pixel bytes into the `0RGB` words that a software
//! frame buffer presents.
use vstd::prelude::*;
use tiny_skia::Pixmap;
use crate::pixmap::{
    pixmap_bytes, pixmap_data, pixmap_fill, pixmap_height, pixmap_len, pixmap_size, pixmap_width,
    solid_bytes,
};

verus! {

/// The `0RGB` word of one pixel: red in bits 16..24, green in bits 8..16,
/// blue in bits 0..8, the top byte zero.
pub open spec fn xrgb_pixel(red: u8, green: u8, blue: u8) -> u32 {
    (red * 0x10000 + green * 0x100 + blue) as u32
}

/// The words of the first `count` pixels of RGBA bytes (four bytes per
/// pixel, in the order red, green, blue, alpha).
pub open spec fn xrgb_frame(bytes: Seq<u8>, count: nat) -> Seq<u32> {
    Seq::new(count, |i: int| xrgb_pixel(bytes[4 * i], bytes[4 * i + 1], bytes[4 * i + 2]))
}

proof fn lemma_pack_bits(red: u8, green: u8, blue: u8)
    ensures
        (blue as u32) | ((green as u32) << 8u32) | ((red as u32) << 16u32) == xrgb_pixel(red, green, blue),
{
    assert((blue as u32) | ((green as u32) << 8u32) | ((red as u32) << 16u32)
        == (red as u32) * 0x10000u32 + (green as u32) * 0x100u32 + (blue as u32)) by (bit_vector);
}

/// Packs the first `count` RGBA pixels of `bytes` into `0RGB` words; the
/// alpha bytes are dropped.
pub fn pack_rgba(bytes: &[u8], count: usize) -> (words: Vec<u32>)
    requires
        4 * count <= bytes@.len(),
    ensures
        words@ == xrgb_frame(bytes@, count as nat),
        words@.len() == count,
        forall|k: int|
            0 <= k < count ==> #[trigger] words@[k] as int == bytes@[4 * k] * 0x10000 + bytes@[4 * k + 1]
                * 0x100 + bytes@[4 * k + 2],
{
    let mut words: Vec<u32> = Vec::with_capacity(count);
    let mut index: usize = 0;
    while index < count
        invariant
            index <= count,
            4 * count <= bytes@.len(),
            bytes@.len() == bytes.len(),
            words@ == xrgb_frame(bytes@, index as nat),
        decreases count - index,
    {
        let base: usize = index * 4;
        let blue = bytes[base + 2];
        let green = bytes[base + 1];
        let red = bytes[base];
        let word: u32 = (blue as u32) | ((green as u32) << 8u32) | ((red as u32) << 16u32);
        proof {
            lemma_pack_bits(red, green, blue);
        }
        words.push(word);
        index = index + 1;
        assert(words@ =~= xrgb_frame(bytes@, index as nat));
    }
    proof {
        lemma_xrgb_frame_pixelwise(bytes@, count as nat);
    }
    words
}

/// The number of pixels of a pixmap.
pub open spec fn pixel_count(pixmap: Pixmap) -> nat {
    (pixmap_size(pixmap).0 * pixmap_size(pixmap).1) as nat
}

/// The `0RGB` words of every pixel of `pixmap`, in row order: what the
/// demo copies into the window's frame buffer after drawing.
pub fn pack_pixmap(pixmap: &Pixmap) -> (words: Vec<u32>)
    ensures
        words@ == xrgb_frame(pixmap_bytes(*pixmap), pixel_count(*pixmap)),
        words@.len() == pixmap_size(*pixmap).0 * pixmap_size(*pixmap).1,
        forall|k: int|
            0 <= k < words@.len() ==> #[trigger] words@[k] as int == pixmap_bytes(*pixmap)[4 * k] * 0x10000
                + pixmap_bytes(*pixmap)[4 * k + 1] * 0x100 + pixmap_bytes(*pixmap)[4 * k + 2],
{
    let width = pixmap_width(pixmap);
    let height = pixmap_height(pixmap);
    let bytes = pixmap_data(pixmap);
    proof {
        assert((width as int) * (height as int) <= 4 * (width as int) * (height as int))
            by (nonlinear_arith);
        assert(4 * ((width as int) * (height as int)) == 4 * (width as int) * (height as int))
            by (nonlinear_arith);
        assert(bytes@.len() == bytes.len());
    }
    let count: usize = (width as usize) * (height as usize);
    pack_rgba(bytes, count)
}

/// Paints every pixel of `pixmap` opaque black, the background that each
/// frame starts from. The pixmap's bytes must come in whole pixels, as they
/// do in every pixmap that `CanvasConfig::new_pixmap` makes.
pub fn clear_to_black(pixmap: &mut Pixmap)
    requires
        pixmap_bytes(*old(pixmap)).len() % 4 == 0,
    ensures
        pixmap_size(*final(pixmap)) == pixmap_size(*old(pixmap)),
        pixmap_bytes(*final(pixmap)) == solid_bytes(pixmap_bytes(*old(pixmap)).len(), 0, 0, 0, 255),
{
    pixmap_fill(pixmap, 0, 0, 0, 255);
}

/// Paints `pixmap` opaque black when its bytes come in whole pixels, and
/// says whether it did; a pixmap with a trailing partial pixel is left as it
/// is.
pub fn clear_to_black_checked(pixmap: &mut Pixmap) -> (cleared: bool)
    ensures
        cleared == (pixmap_bytes(*old(pixmap)).len() % 4 == 0),
        pixmap_size(*final(pixmap)) == pixmap_size(*old(pixmap)),
        cleared ==> pixmap_bytes(*final(pixmap)) == solid_bytes(
            pixmap_bytes(*old(pixmap)).len(),
            0,
            0,
            0,
            255,
        ),
        !cleared ==> *final(pixmap) == *old(pixmap),
{
    let len = pixmap_data(pixmap).len();
    if len % 4 == 0 {
        clear_to_black(pixmap);
        true
    } else {
        false
    }
}

/// Word `k` of a packed frame is made from the bytes of pixel `k` alone, in
/// the same order: red times 0x10000 plus green times 0x100 plus blue, taken
/// from bytes `4k`, `4k + 1` and `4k + 2`; there is one word per pixel.
pub proof fn lemma_xrgb_frame_pixelwise(bytes: Seq<u8>, count: nat)
    requires
        4 * count <= bytes.len(),
    ensures
        xrgb_frame(bytes, count).len() == count,
        forall|k: int|
            0 <= k < count ==> #[trigger] xrgb_frame(bytes, count)[k] as int == bytes[4 * k] * 0x10000
                + bytes[4 * k + 1] * 0x100 + bytes[4 * k + 2],
{
    assert forall|k: int| 0 <= k < count implies #[trigger] xrgb_frame(bytes, count)[k] as int == bytes[4
        * k] * 0x10000 + bytes[4 * k + 1] * 0x100 + bytes[4 * k + 2] by {
        let r = bytes[4 * k];
        let g = bytes[4 * k + 1];
        let b = bytes[4 * k + 2];
        assert(r * 0x10000 + g * 0x100 + b < 0x1_0000_0000);
    }
}

/// A packed word gives back the red, green and blue bytes it was made from,
/// and its top byte is zero.
pub proof fn lemma_xrgb_channels(red: u8, green: u8, blue: u8)
    ensures
        xrgb_pixel(red, green, blue) >> 16u32 == red as u32,
        (xrgb_pixel(red, green, blue) >> 8u32) & 0xffu32 == green as u32,
        xrgb_pixel(red, green, blue) & 0xffu32 == blue as u32,
        xrgb_pixel(red, green, blue) < 0x100_0000u32,
{
    lemma_pack_bits(red, green, blue);
    assert(((blue as u32) | ((green as u32) << 8u32) | ((red as u32) << 16u32)) >> 16u32 == red as u32
        && (((blue as u32) | ((green as u32) << 8u32) | ((red as u32) << 16u32)) >> 8u32) & 0xffu32
        == green as u32
        && ((blue as u32) | ((green as u32) << 8u32) | ((red as u32) << 16u32)) & 0xffu32 == blue as u32
        && ((blue as u32) | ((green as u32) << 8u32) | ((red as u32) << 16u32)) < 0x100_0000u32)
        by (bit_vector);
}

/// Two packed words are equal exactly when their red, green and blue bytes
/// are.
pub proof fn lemma_xrgb_injective(r1: u8, g1: u8, b1: u8, r2: u8, g2: u8, b2: u8)
    ensures
        (xrgb_pixel(r1, g1, b1) == xrgb_pixel(r2, g2, b2)) <==> (r1 == r2 && g1 == g2 && b1 == b2),
{
    lemma_xrgb_channels(r1, g1, b1);
    lemma_xrgb_channels(r2, g2, b2);
}

/// Packing drops the alpha bytes: two byte sequences that agree on every
/// red, green and blue byte of the first `count` pixels pack alike.
pub proof fn lemma_alpha_ignored(a: Seq<u8>, b: Seq<u8>, count: nat)
    requires
        4 * count <= a.len(),
        4 * count <= b.len(),
        forall|i: int| 0 <= i < 4 * count && i % 4 != 3 ==> #[trigger] a[i] == b[i],
    ensures
        xrgb_frame(a, count) == xrgb_frame(b, count),
{
    assert forall|k: int| 0 <= k < count implies xrgb_frame(a, count)[k] == xrgb_frame(b, count)[k] by {
        assert((4 * k) % 4 == 0);
        assert((4 * k + 1) % 4 == 1);
        assert((4 * k + 2) % 4 == 2);
        assert(a[4 * k] == b[4 * k]);
        assert(a[4 * k + 1] == b[4 * k + 1]);
        assert(a[4 * k + 2] == b[4 * k + 2]);
    }
    assert(xrgb_frame(a, count) =~= xrgb_frame(b, count));
}

/// A pixmap filled with one opaque colour packs to that colour's word in
/// every pixel; cleared to black, it packs to zero words.
pub proof fn lemma_solid_frame(len: nat, count: nat, red: u8, green: u8, blue: u8)
    requires
        4 * count <= len,
    ensures
        xrgb_frame(solid_bytes(len, red, green, blue, 255), count) == Seq::new(
            count,
            |i: int| xrgb_pixel(red, green, blue),
        ),
        xrgb_frame(solid_bytes(len, 0, 0, 0, 255), count) == Seq::new(count, |i: int| 0u32),
{
    let s = solid_bytes(len, red, green, blue, 255);
    assert forall|k: int| 0 <= k < count implies #[trigger] xrgb_frame(s, count)[k] == xrgb_pixel(red, green, blue) by {
        assert((4 * k) % 4 == 0);
        assert((4 * k + 1) % 4 == 1);
        assert((4 * k + 2) % 4 == 2);
    }
    assert(xrgb_frame(s, count) =~= Seq::new(count, |i: int| xrgb_pixel(red, green, blue)));
    let z = solid_bytes(len, 0, 0, 0, 255);
    assert forall|k: int| 0 <= k < count implies #[trigger] xrgb_frame(z, count)[k] == 0u32 by {
        assert((4 * k) % 4 == 0);
        assert((4 * k + 1) % 4 == 1);
        assert((4 * k + 2) % 4 == 2);
    }
    assert(xrgb_frame(z, count) =~= Seq::new(count, |i: int| 0u32));
}

/// A frame cleared with `clear_to_black` and packed with `pack_pixmap`
/// before anything else is drawn is all zero words: the buffer shows black.
pub proof fn lemma_cleared_frame_packs_to_zero(before: Pixmap, after: Pixmap)
    requires
        pixmap_size(after) == pixmap_size(before),
        pixmap_bytes(after) == solid_bytes(pixmap_bytes(before).len(), 0, 0, 0, 255),
        pixmap_bytes(before).len() >= pixmap_len(pixmap_size(before).0, pixmap_size(before).1),
    ensures
        xrgb_frame(pixmap_bytes(after), pixel_count(after)) == Seq::new(pixel_count(after), |i: int| 0u32),
{
    let w = pixmap_size(before).0;
    let h = pixmap_size(before).1;
    assert(4 * ((w * h) as nat) == 4 * w * h) by (nonlinear_arith);
    lemma_solid_frame(pixmap_bytes(before).len(), pixel_count(after), 0, 0, 0);
}

} // verus!
