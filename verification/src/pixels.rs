//! The pixel normalizer: converts interleaved RGBA bytes into the 8-bit
//! luma representation the engine's binarizer consumes.

use vstd::prelude::*;

verus! {

/// The luma value of one RGBA pixel.  A fully transparent pixel counts as
/// white background; an opaque one gets the standard luma weighting
/// `0.299 R + 0.587 G + 0.114 B`, carried out in integer arithmetic as
/// `(306 R + 601 G + 117 B + 512) / 1024`.
pub open spec fn spec_luma(r: u8, g: u8, b: u8, a: u8) -> u8 {
    if a == 0 {
        255
    } else {
        ((306 * (r as int) + 601 * (g as int) + 117 * (b as int) + 512) / 1024) as u8
    }
}

/// The weighted sum of full-scale channels divides down to full scale, so
/// the luma of any pixel fits in a byte.
pub proof fn lemma_luma_bounds(r: u8, g: u8, b: u8)
    ensures
        0 <= (306 * (r as int) + 601 * (g as int) + 117 * (b as int) + 512) / 1024 <= 255,
{
    let s = 306 * (r as int) + 601 * (g as int) + 117 * (b as int) + 512;
    assert(s <= 306 * 255 + 601 * 255 + 117 * 255 + 512);
    assert(s / 1024 <= 261632int / 1024) by (nonlinear_arith)
        requires
            0 <= s <= 261632int,
    ;
}

/// Edge values of the luma mapping: transparent pixels are white, opaque
/// white stays white, opaque black stays black.
pub proof fn lemma_luma_edge_cases(r: u8, g: u8, b: u8)
    ensures
        spec_luma(r, g, b, 0) == 255,
        spec_luma(255, 255, 255, 255) == 255,
        spec_luma(0, 0, 0, 255) == 0,
{
}

/// Converts interleaved RGBA bytes (as read out of a canvas image) into
/// one luma byte per pixel.  Trailing bytes of a partial pixel are
/// dropped.
pub fn convert_js_image_to_luma(data: &[u8]) -> (r: Vec<u8>)
    ensures
        r@.len() == data@.len() / 4,
        forall|p: int|
            0 <= p < r@.len() ==> r@[p] == spec_luma(
                data@[4 * p],
                data@[4 * p + 1],
                data@[4 * p + 2],
                data@[4 * p + 3],
            ),
{
    let len = data.len();
    let n = len / 4;
    let mut luma: Vec<u8> = Vec::new();
    let mut p: usize = 0;
    while p < n
        invariant
            p <= n,
            len == data@.len(),
            n == data@.len() / 4,
            luma@.len() == p,
            forall|q: int|
                0 <= q < p ==> luma@[q] == spec_luma(
                    data@[4 * q],
                    data@[4 * q + 1],
                    data@[4 * q + 2],
                    data@[4 * q + 3],
                ),
        decreases n - p,
    {
        proof {
            assert(4 * (n as int) <= len as int) by (nonlinear_arith)
                requires
                    n as int == len as int / 4,
                    len as int >= 0,
            ;
            assert(4 * (p as int) + 3 < len as int) by (nonlinear_arith)
                requires
                    p < n,
                    4 * (n as int) <= len as int,
            ;
        }
        let red = data[4 * p];
        let green = data[4 * p + 1];
        let blue = data[4 * p + 2];
        let alpha = data[4 * p + 3];
        let pixel: u8 = if alpha == 0 {
            255
        } else {
            proof {
                lemma_luma_bounds(red, green, blue);
            }
            ((306 * (red as u32) + 601 * (green as u32) + 117 * (blue as u32) + 512) / 1024) as u8
        };
        luma.push(pixel);
        p += 1;
    }
    luma
}

} // verus!
