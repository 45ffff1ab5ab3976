//! The raster: how many pixels it has and where each one lies in the output, which
//! holds the rows one after another.
use vstd::arithmetic::div_mod::{lemma_div_pos_is_pos, lemma_fundamental_div_mod};
use vstd::prelude::*;

verus! {

/// The number of pixels of a `width` by `height` raster.
pub fn pixel_count(width: u32, height: u32) -> (count: u64)
    ensures
        count == width * height,
{
    let w: u64 = width as u64;
    let h: u64 = height as u64;
    assert(w * h <= 0xFFFF_FFFF * 0xFFFF_FFFF) by (nonlinear_arith)
        requires
            0 <= w <= 0xFFFF_FFFF,
            0 <= h <= 0xFFFF_FFFF,
    ;
    w * h
}

/// The place of pixel `(x, y)` in the output of a `width` by `height` raster, which
/// holds the rows one after another: `y * width + x`, or `None` where the raster has
/// no such pixel.
pub fn pixel_index(width: u32, height: u32, x: u32, y: u32) -> (index: Option<u64>)
    ensures
        index is Some <==> x < width && y < height,
        index matches Some(place) ==> place == y * width + x && place < width * height,
{
    if x >= width || y >= height {
        return None;
    }
    let w: u64 = width as u64;
    let row: u64 = y as u64;
    assert(row * w + w <= height * w && row * w == y * width && height * w == width
        * height) by (nonlinear_arith)
        requires
            row == y,
            w == width,
            y < height,
    ;
    assert(height * w <= 0xFFFF_FFFF * 0xFFFF_FFFF) by (nonlinear_arith)
        requires
            0 <= w <= 0xFFFF_FFFF,
            0 <= height <= 0xFFFF_FFFF,
    ;
    Some(row * w + x as u64)
}

/// Every place in the output belongs to exactly one pixel: two pixels of a raster that
/// differ have different places, so the rows neither overlap nor leave a gap.
pub proof fn lemma_pixels_have_their_own_places(width: int, x1: int, y1: int, x2: int, y2: int)
    requires
        0 <= x1 < width,
        0 <= x2 < width,
        0 <= y1,
        0 <= y2,
        y1 * width + x1 == y2 * width + x2,
    ensures
        x1 == x2,
        y1 == y2,
{
    if y1 < y2 {
        assert(y2 * width >= y1 * width + width) by (nonlinear_arith)
            requires
                y1 + 1 <= y2,
                width > 0,
        ;
    } else if y2 < y1 {
        assert(y1 * width >= y2 * width + width) by (nonlinear_arith)
            requires
                y2 + 1 <= y1,
                width > 0,
        ;
    }
}

/// Every place below `width * height` is the place of a pixel: column `place % width`
/// of row `place / width`.
pub proof fn lemma_every_place_is_a_pixel(width: int, height: int, place: int)
    requires
        0 < width,
        0 <= place < width * height,
    ensures
        0 <= place % width < width,
        0 <= place / width < height,
        (place / width) * width + place % width == place,
{
    lemma_fundamental_div_mod(place, width);
    lemma_div_pos_is_pos(place, width);
    let row = place / width;
    assert(row * width == width * row) by (nonlinear_arith);
    if row >= height {
        assert(row * width >= height * width) by (nonlinear_arith)
            requires
                row >= height,
                width > 0,
        ;
        assert(height * width == width * height) by (nonlinear_arith);
    }
}

} // verus!
