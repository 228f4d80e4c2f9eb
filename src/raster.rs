//! The order in which the pixels of an image are rendered and written: rows from the top
//! (the highest row index) down, each row from left to right.
use vstd::prelude::*;
use vstd::arithmetic::div_mod::{
    lemma_fundamental_div_mod,
    lemma_fundamental_div_mod_converse,
    lemma_multiply_divide_lt,
};
use vstd::arithmetic::mul::lemma_mul_inequality;

verus! {

/// The pixel `(i, j)` produced `k`-th in an image of `width` columns and `height` rows:
/// column `i` counts from the left, row `j` from the bottom.
pub open spec fn scan_pixel_spec(width: int, height: int, k: int) -> (int, int) {
    (k % width, height - 1 - k / width)
}

/// The position of pixel `(i, j)` in the scan order.
pub open spec fn scan_index(width: int, height: int, i: int, j: int) -> int {
    (height - 1 - j) * width + i
}

/// The pixel produced `k`-th when an image of `width` by `height` pixels is scanned.
pub fn scan_pixel(width: u32, height: u32, k: u64) -> (r: (u32, u32))
    requires
        width > 0,
        height > 0,
        k < width * height,
    ensures
        (r.0 as int, r.1 as int) == scan_pixel_spec(width as int, height as int, k as int),
        r.0 < width,
        r.1 < height,
{
    let w: u64 = width as u64;
    proof {
        lemma_multiply_divide_lt(k as int, w as int, height as int);
    }
    let row: u64 = k / w;
    let i: u32 = (k % w) as u32;
    let j: u32 = height - 1 - row as u32;
    (i, j)
}

/// Every pixel of the image is produced, at the position that `scan_index` gives.
pub proof fn lemma_scan_reaches_every_pixel(width: int, height: int, i: int, j: int)
    requires
        0 <= i < width,
        0 <= j < height,
    ensures
        0 <= scan_index(width, height, i, j) < width * height,
        scan_pixel_spec(width, height, scan_index(width, height, i, j)) == (i, j),
{
    let q = height - 1 - j;
    let k = scan_index(width, height, i, j);
    assert(k == q * width + i);
    lemma_fundamental_div_mod_converse(k, width, q, i);
    lemma_mul_inequality(q, height - 1, width);
    assert(q * width >= 0) by (nonlinear_arith)
        requires
            q >= 0,
            width > 0,
    ;
    assert((height - 1) * width + width == width * height) by (nonlinear_arith);
}

/// Each position of the scan produces a pixel of the image, and no other position produces
/// the same one: `scan_index` undoes `scan_pixel_spec`.
pub proof fn lemma_scan_positions_are_distinct(width: int, height: int, k: int)
    requires
        width > 0,
        height > 0,
        0 <= k < width * height,
    ensures
        0 <= scan_pixel_spec(width, height, k).0 < width,
        0 <= scan_pixel_spec(width, height, k).1 < height,
        scan_index(
            width,
            height,
            scan_pixel_spec(width, height, k).0,
            scan_pixel_spec(width, height, k).1,
        ) == k,
{
    lemma_fundamental_div_mod(k, width);
    lemma_multiply_divide_lt(k, width, height);
    assert(k / width >= 0) by (nonlinear_arith)
        requires
            k >= 0,
            width > 0,
    ;
    assert(0 <= k % width < width) by (nonlinear_arith)
        requires
            width > 0,
    ;
    assert(width * (k / width) == (k / width) * width) by (nonlinear_arith);
}

} // verus!
