//! Packed RGB pixels and the byte layouts that native targets expect.
//!
//! A pixel is a `u32` holding `0xRRGGBB` in its low 24 bits. Native targets
//! read bytes, four per pixel, in one of two layouts.
use vstd::prelude::*;

verus! {

/// The order in which a native target reads the four bytes of a pixel.
#[derive(Debug, Clone, Copy, PartialEq, Eq, Structural)]
pub enum PixelLayout {
    /// The pixel as a little-endian 32-bit word: blue, green, red, then the
    /// pixel's top byte, which the target skips.
    Bgrx,
    /// Red, green, blue, then an alpha byte that is always opaque.
    Rgba,
}

/// The alpha value of a fully opaque pixel.
pub const OPAQUE: u8 = 0xff;

/// The red channel: bits 16 to 23.
pub open spec fn spec_red(pixel: u32) -> u8 {
    ((pixel >> 16) & 0xff) as u8
}

/// The green channel: bits 8 to 15.
pub open spec fn spec_green(pixel: u32) -> u8 {
    ((pixel >> 8) & 0xff) as u8
}

/// The blue channel: bits 0 to 7.
pub open spec fn spec_blue(pixel: u32) -> u8 {
    (pixel & 0xff) as u8
}

/// The byte above the three channels. It carries no colour.
pub open spec fn spec_unused(pixel: u32) -> u8 {
    ((pixel >> 24) & 0xff) as u8
}

/// The pixel with these three channels and a zero top byte.
pub open spec fn spec_pack_rgb(red: u8, green: u8, blue: u8) -> u32 {
    ((red as u32) << 16) | ((green as u32) << 8) | (blue as u32)
}

/// The `k`-th byte of a pixel in a layout, for `k` from 0 to 3.
pub open spec fn pixel_byte(pixel: u32, layout: PixelLayout, k: int) -> u8 {
    match layout {
        PixelLayout::Bgrx => if k == 0 {
            spec_blue(pixel)
        } else if k == 1 {
            spec_green(pixel)
        } else if k == 2 {
            spec_red(pixel)
        } else {
            spec_unused(pixel)
        },
        PixelLayout::Rgba => if k == 0 {
            spec_red(pixel)
        } else if k == 1 {
            spec_green(pixel)
        } else if k == 2 {
            spec_blue(pixel)
        } else {
            OPAQUE
        },
    }
}

/// A row-major pixel sequence as bytes: four per pixel, pixels in order,
/// with no padding between rows.
pub open spec fn encoded(pixels: Seq<u32>, layout: PixelLayout) -> Seq<u8> {
    Seq::new(4 * pixels.len(), |i: int| pixel_byte(pixels[i / 4], layout, i % 4))
}

/// Reads the red channel of a pixel.
#[verifier::when_used_as_spec(spec_red)]
pub fn red(pixel: u32) -> (channel: u8)
    ensures
        channel == spec_red(pixel),
{
    assert((pixel >> 16) & 0xff < 256) by (bit_vector);
    ((pixel >> 16) & 0xff) as u8
}

/// Reads the green channel of a pixel.
#[verifier::when_used_as_spec(spec_green)]
pub fn green(pixel: u32) -> (channel: u8)
    ensures
        channel == spec_green(pixel),
{
    assert((pixel >> 8) & 0xff < 256) by (bit_vector);
    ((pixel >> 8) & 0xff) as u8
}

/// Reads the blue channel of a pixel.
#[verifier::when_used_as_spec(spec_blue)]
pub fn blue(pixel: u32) -> (channel: u8)
    ensures
        channel == spec_blue(pixel),
{
    assert(pixel & 0xff < 256) by (bit_vector);
    (pixel & 0xff) as u8
}

/// Packs three channels into a pixel with a zero top byte.
#[verifier::when_used_as_spec(spec_pack_rgb)]
pub fn pack_rgb(red: u8, green: u8, blue: u8) -> (pixel: u32)
    ensures
        pixel == spec_pack_rgb(red, green, blue),
{
    ((red as u32) << 16) | ((green as u32) << 8) | (blue as u32)
}

/// The four bytes of one pixel in a layout.
pub fn pixel_bytes(pixel: u32, layout: PixelLayout) -> (bytes: [u8; 4])
    ensures
        forall|k: int| 0 <= k < 4 ==> bytes[k] == pixel_byte(pixel, layout, k),
{
    assert((pixel >> 24) & 0xff < 256) by (bit_vector);
    match layout {
        PixelLayout::Bgrx => [blue(pixel), green(pixel), red(pixel), ((pixel >> 24) & 0xff) as u8],
        PixelLayout::Rgba => [red(pixel), green(pixel), blue(pixel), OPAQUE],
    }
}

/// Lays a pixel buffer out as the bytes a native target reads.
pub fn encode(buffer: &[u32], layout: PixelLayout) -> (bytes: Vec<u8>)
    ensures
        bytes@ == encoded(buffer@, layout),
{
    let mut bytes: Vec<u8> = Vec::new();
    let mut i: usize = 0;
    while i < buffer.len()
        invariant
            i <= buffer.len(),
            bytes.len() == 4 * i,
            forall|j: int|
                0 <= j < bytes.len() ==> bytes[j] == pixel_byte(
                    #[trigger] buffer[j / 4],
                    layout,
                    j % 4,
                ),
        decreases buffer.len() - i,
    {
        let four = pixel_bytes(buffer[i], layout);
        bytes.push(four[0]);
        bytes.push(four[1]);
        bytes.push(four[2]);
        bytes.push(four[3]);
        i += 1;
    }
    assert(bytes@ =~= encoded(buffer@, layout));
    bytes
}

/// Packing then reading a channel gives the channel back, and the top byte
/// of a packed pixel is zero.
pub proof fn lemma_pack_round_trip(red: u8, green: u8, blue: u8)
    ensures
        spec_red(spec_pack_rgb(red, green, blue)) == red,
        spec_green(spec_pack_rgb(red, green, blue)) == green,
        spec_blue(spec_pack_rgb(red, green, blue)) == blue,
        spec_unused(spec_pack_rgb(red, green, blue)) == 0,
{
    let p = spec_pack_rgb(red, green, blue);
    assert(p == ((red as u32) << 16) | ((green as u32) << 8) | (blue as u32));
    assert(((((red as u32) << 16) | ((green as u32) << 8) | (blue as u32)) >> 16) & 0xff
        == red as u32) by (bit_vector);
    assert(((((red as u32) << 16) | ((green as u32) << 8) | (blue as u32)) >> 8) & 0xff
        == green as u32) by (bit_vector);
    assert((((red as u32) << 16) | ((green as u32) << 8) | (blue as u32)) & 0xff
        == blue as u32) by (bit_vector);
    assert(((((red as u32) << 16) | ((green as u32) << 8) | (blue as u32)) >> 24) & 0xff
        == 0u32) by (bit_vector);
}

/// Encoding keeps every pixel: the result has four bytes per pixel, and in
/// the little-endian layout the bytes of a pixel put back together give the
/// pixel itself.
pub proof fn lemma_encoded_bgrx_is_little_endian(pixels: Seq<u32>, i: int)
    requires
        0 <= i < pixels.len(),
    ensures
        encoded(pixels, PixelLayout::Bgrx).len() == 4 * pixels.len(),
        pixels[i] == (encoded(pixels, PixelLayout::Bgrx)[4 * i] as u32)
            | (encoded(pixels, PixelLayout::Bgrx)[4 * i + 1] as u32) << 8
            | (encoded(pixels, PixelLayout::Bgrx)[4 * i + 2] as u32) << 16
            | (encoded(pixels, PixelLayout::Bgrx)[4 * i + 3] as u32) << 24,
{
    let p = pixels[i];
    let e = encoded(pixels, PixelLayout::Bgrx);
    assert(e[4 * i] == spec_blue(p));
    assert(e[4 * i + 1] == spec_green(p));
    assert(e[4 * i + 2] == spec_red(p));
    assert(e[4 * i + 3] == spec_unused(p));
    assert(p == (((p & 0xff) as u8) as u32) | ((((p >> 8) & 0xff) as u8) as u32) << 8 | ((((p
        >> 16) & 0xff) as u8) as u32) << 16 | ((((p >> 24) & 0xff) as u8) as u32) << 24)
        by (bit_vector);
}

} // verus!
