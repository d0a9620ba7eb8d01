use vstd::prelude::*;

use crate::canvas::cell_index;

verus! {

/// Colour channels per pixel in the accumulation buffer (red, green, blue).
pub const CHANNELS: usize = 3;

/// A surface rays can be generated for: the per-pixel step divides by
/// `dimension - 1`, so both dimensions must be at least 2, and the whole
/// RGB buffer must be addressable.
pub open spec fn renderable(width: nat, height: nat) -> bool {
    &&& 2 <= width
    &&& 2 <= height
    &&& width * height * 3 <= usize::MAX
}

/// Whether a `width` x `height` surface can be rendered.
pub fn is_renderable(width: usize, height: usize) -> (r: bool)
    ensures
        r == renderable(width as nat, height as nat),
{
    if width < 2 || height < 2 {
        return false;
    }
    match width.checked_mul(height) {
        Some(cells) => cells.checked_mul(CHANNELS).is_some(),
        None => {
            proof {
                assert(width * height * 3 >= width * height) by (nonlinear_arith);
            }
            false
        },
    }
}

/// Number of floats in the buffer of a `width` x `height` surface, three per
/// pixel, or `None` when that many cannot be addressed.
pub fn buffer_len(width: usize, height: usize) -> (r: Option<usize>)
    ensures
        width * height * 3 <= usize::MAX ==> r == Some((width * height * 3) as usize),
        width * height * 3 > usize::MAX ==> r is None,
{
    match width.checked_mul(height) {
        Some(cells) => cells.checked_mul(CHANNELS),
        None => {
            proof {
                assert(width * height * 3 >= width * height) by (nonlinear_arith);
            }
            None
        },
    }
}

/// Offset of the red channel of pixel `(x, y)` in the row-major buffer; green
/// and blue follow it.
pub fn pixel_offset(width: usize, height: usize, x: usize, y: usize) -> (r: usize)
    requires
        x < width,
        y < height,
        width * height * 3 <= usize::MAX,
    ensures
        r == 3 * cell_index(width as int, x as int, y as int),
        r + 3 <= width * height * 3,
{
    proof {
        assert(y * width + x < width * height) by (nonlinear_arith)
            requires
                x < width,
                y < height,
        ;
    }
    (y * width + x) * CHANNELS
}

} // verus!
