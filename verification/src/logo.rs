//! Image compositor: flattens a logo's opacity against a white
//! background and fits it into the header's bounding box.

use vstd::prelude::*;
use crate::ops::{Raster, RgbaRaster};

verus! {

/// Alpha blend of one channel over a white background:
/// `out = fg * a / 255 + 255 * (255 - a) / 255`, computed exactly and
/// truncated.
pub open spec fn spec_blend_white(fg: int, a: int) -> int {
    (fg * a + 255 * (255 - a)) / 255
}

/// One pixel channel blended over white.
fn blend_white(fg: u8, a: u8) -> (r: u8)
    ensures
        r == spec_blend_white(fg as int, a as int),
{
    let fgw: u32 = fg as u32;
    let aw: u32 = a as u32;
    proof {
        assert(fgw * aw + 255 * (255 - aw) <= 65025) by (nonlinear_arith)
            requires
                fgw <= 255,
                aw <= 255,
        ;
    }
    let num: u32 = fgw * aw + 255 * (255 - aw);
    assert(num / 255 <= 255);
    (num / 255) as u8
}

/// The RGB flattening of an RGBA buffer: for every pixel, each of the
/// three colour channels blended against white by the pixel's alpha.
pub open spec fn spec_flatten_white(px: Seq<u8>, n: int) -> Seq<u8> {
    Seq::new((3 * n) as nat, |i: int| #[verifier::truncate] (spec_blend_white(px[4 * (i / 3) + (i % 3)] as int, px[4 * (i / 3) + 3] as int) as u8))
}

/// Flatten a logo raster with per-pixel opacity into an opaque raster on
/// a solid white background, dimensions unchanged.
pub fn flatten_logo(img: &RgbaRaster) -> (out: Raster)
    requires
        1 <= img.width,
        1 <= img.height,
        img.pixels@.len() == 4 * (img.width as int) * (img.height as int),
    ensures
        out.width == img.width,
        out.height == img.height,
        out.pixels@ == spec_flatten_white(img.pixels@, (img.width as int) * (img.height as int)),
{
    let ghost n_pix: int = (img.width as int) * (img.height as int);
    proof {
        vstd::arithmetic::mul::lemma_mul_is_associative(4, img.width as int, img.height as int);
    }
    let count: usize = img.pixels.len() / 4;
    proof {
        assert(count == n_pix) by (nonlinear_arith)
            requires
                img.pixels@.len() == 4 * n_pix,
                n_pix >= 0,
                count == img.pixels@.len() as int / 4,
        ;
    }
    let mut out: Vec<u8> = Vec::new();
    let mut i: usize = 0;
    while i < count
        invariant
            i <= count,
            count == n_pix,
            img.pixels@.len() == 4 * n_pix,
            img.pixels@.len() <= usize::MAX,
            out@.len() == 3 * i,
            forall|j: int|
                0 <= j < 3 * i ==> out@[j] == #[verifier::truncate] (spec_blend_white(
                    img.pixels@[4 * (j / 3) + (j % 3)] as int,
                    img.pixels@[4 * (j / 3) + 3] as int,
                ) as u8),
        decreases count - i,
    {
        proof {
            assert(4 * i + 3 < 4 * n_pix) by (nonlinear_arith)
                requires
                    0 <= i < n_pix,
            ;
        }
        let a = img.pixels[4 * i + 3];
        let r = blend_white(img.pixels[4 * i], a);
        let g = blend_white(img.pixels[4 * i + 1], a);
        let b = blend_white(img.pixels[4 * i + 2], a);
        out.push(r);
        out.push(g);
        out.push(b);
        proof {
            assert forall|j: int| 0 <= j < 3 * (i + 1) implies out@[j] == #[verifier::truncate] (
            spec_blend_white(
                img.pixels@[4 * (j / 3) + (j % 3)] as int,
                img.pixels@[4 * (j / 3) + 3] as int,
            ) as u8) by {
                if j >= 3 * i {
                    assert(j / 3 == i as int && (j == 3 * i ==> j % 3 == 0) && (j == 3 * i + 1 ==> j
                        % 3 == 1) && (j == 3 * i + 2 ==> j % 3 == 2)) by (nonlinear_arith)
                        requires
                            3 * i <= j < 3 * (i + 1),
                    ;
                }
            }
        }
        i = i + 1;
    }
    proof {
        assert(out@ =~= spec_flatten_white(img.pixels@, n_pix));
    }
    Raster { width: img.width, height: img.height, pixels: out }
}

} // verus!
