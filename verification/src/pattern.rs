//! A test pattern: a frame computed pixel by pixel from the coordinates.
use crate::native::fills;
use crate::pixel::{pack_rgb, spec_pack_rgb};
use vstd::prelude::*;

verus! {

/// The pattern's pixel in column `x` of row `y`: red follows the column,
/// green the row and blue their product, each taken modulo 255.
pub open spec fn gradient_pixel(x: u16, y: u16) -> u32 {
    spec_pack_rgb((x % 255) as u8, (y % 255) as u8, ((x * y) % 255) as u8)
}

/// Computes `gradient_pixel`.
pub fn gradient_at(x: u16, y: u16) -> (pixel: u32)
    ensures
        pixel == gradient_pixel(x, y),
{
    assert(0 <= x as int * y as int <= 0xffff * 0xffff) by (nonlinear_arith)
        requires
            0 <= x as int <= 0xffff,
            0 <= y as int <= 0xffff,
    ;
    let product: u32 = x as u32 * y as u32;
    pack_rgb((x % 255) as u8, (y % 255) as u8, (product % 255) as u8)
}

/// The pattern as one frame of `width` by `height`: row after row from the
/// top, each row from the left, without padding.
pub fn gradient(width: u16, height: u16) -> (buffer: Vec<u32>)
    ensures
        fills(buffer@.len(), width, height),
        forall|i: int|
            0 <= i < buffer@.len() ==> buffer@[i] == gradient_pixel(
                (i % width as int) as u16,
                (i / width as int) as u16,
            ),
{
    let mut buffer: Vec<u32> = Vec::new();
    let mut y: u16 = 0;
    while y < height
        invariant
            y <= height,
            buffer@.len() == y * width,
            forall|i: int|
                0 <= i < buffer@.len() ==> buffer@[i] == gradient_pixel(
                    (i % width as int) as u16,
                    (i / width as int) as u16,
                ),
        decreases height - y,
    {
        let mut x: u16 = 0;
        while x < width
            invariant
                y < height,
                x <= width,
                buffer@.len() == y * width + x,
                forall|i: int|
                    0 <= i < buffer@.len() ==> buffer@[i] == gradient_pixel(
                        (i % width as int) as u16,
                        (i / width as int) as u16,
                    ),
            decreases width - x,
        {
            proof {
                lemma_row_major(x as int, y as int, width as int);
            }
            buffer.push(gradient_at(x, y));
            x += 1;
        }
        assert(y * width + width == (y + 1) * width) by (nonlinear_arith);
        y += 1;
    }
    assert(height as int * width as int == width as int * height as int) by (nonlinear_arith);
    buffer
}

/// In a frame stored row by row, the pixel at index `y * width + x` is the
/// one in column `x` of row `y`.
pub proof fn lemma_row_major(x: int, y: int, width: int)
    requires
        0 <= x < width,
        0 <= y,
    ensures
        (y * width + x) % width == x,
        (y * width + x) / width == y,
{
    vstd::arithmetic::div_mod::lemma_fundamental_div_mod_converse(y * width + x, width, y, x);
}

} // verus!
