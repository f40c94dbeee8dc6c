//! Mapping of pixel positions onto the complex plane.
//!
//! Pixel `(x, y)` of a `width` by `height` image at zoom `zoom` maps to
//! `re = (2x/width - 1)/zoom`, `im = (2y/height - 1)(height/width)/zoom`.
//! Both coordinates share the factor `1 / (width * zoom)`; what is left is
//! the pair of integers `(2x - width, 2y - height)`, the pixel's offset from
//! the image centre counted in half pixels. This module computes that offset
//! exactly; the caller applies the common factor.
use vstd::prelude::*;

verus! {

/// The offset of pixel `(x, y)` from the centre of a `width` by `height`
/// image, in half pixels.
pub open spec fn offset(x: int, y: int, width: int, height: int) -> (int, int) {
    (2 * x - width, 2 * y - height)
}

/// The offset of pixel `(x, y)` from the image centre, in half pixels. The
/// plane point is this offset divided by `width * zoom`.
pub fn pixel_offset(x: u32, y: u32, width: u32, height: u32) -> (r: (i64, i64))
    ensures
        (r.0 as int, r.1 as int) == offset(x as int, y as int, width as int, height as int),
{
    (2 * (x as i64) - width as i64, 2 * (y as i64) - height as i64)
}

/// The mapping is symmetric and linear: the first pixel corner and the far
/// corner of the image map to opposite points, and each step of one pixel
/// along an axis moves the point by the same amount, two half pixels along
/// that axis.
pub proof fn lemma_offset_symmetric_and_linear(x: int, y: int, width: int, height: int)
    ensures
        offset(0, 0, width, height).0 == -offset(width, height, width, height).0,
        offset(0, 0, width, height).1 == -offset(width, height, width, height).1,
        offset(x + 1, y, width, height) == (offset(x, y, width, height).0 + 2, offset(
            x,
            y,
            width,
            height,
        ).1),
        offset(x, y + 1, width, height) == (offset(x, y, width, height).0, offset(
            x,
            y,
            width,
            height,
        ).1 + 2),
{
}

} // verus!
