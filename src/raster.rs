//! Raster rendering: a square grayscale pixel grid, each module a
//! `scale`-by-`scale` block, inside a quiet zone of light modules.
use vstd::prelude::*;
use vstd::arithmetic::div_mod::lemma_fundamental_div_mod;
use crate::symbol::QrSymbol;

verus! {

/// The intensity of a dark pixel (black).
pub const DARK: u8 = 0;

/// The intensity of a light pixel (white).
pub const LIGHT: u8 = 255;

/// A square grayscale image, `side` pixels on each side, row by row.
pub struct RasterImage {
    pub side: u32,
    pub rows: Vec<Vec<u8>>,
}

/// Pixels on each side: the symbol and a quiet zone of `border` modules on
/// each side, all scaled by `scale`.
pub open spec fn raster_side(s: QrSymbol, scale: nat, border: nat) -> nat {
    (s.size() + 2 * border) * scale
}

/// The intensity of the pixel in column `x`, row `y`: dark where it falls
/// in a dark module, light in light modules and in the quiet zone.
pub open spec fn raster_pixel(s: QrSymbol, scale: nat, border: nat, x: int, y: int) -> u8 {
    let col = x / (scale as int) - border;
    let row = y / (scale as int) - border;
    if 0 <= col < s.size() && 0 <= row < s.size() && s.dark_at(row, col) {
        DARK
    } else {
        LIGHT
    }
}

/// `img` is the raster rendering of `s` at `scale` with a quiet zone of
/// `border` modules.
pub open spec fn is_raster_of(img: RasterImage, s: QrSymbol, scale: nat, border: nat) -> bool {
    &&& img.side == raster_side(s, scale, border)
    &&& img.rows@.len() == img.side
    &&& forall|y: int| 0 <= y < img.side ==> (#[trigger] img.rows@[y])@.len() == img.side
    &&& forall|y: int, x: int|
        0 <= y < img.side && 0 <= x < img.side ==> (#[trigger] img.rows@[y]@[x]) == raster_pixel(
            s,
            scale,
            border,
            x,
            y,
        )
}

/// Renders the symbol as a grayscale image: each module a `scale`-by-`scale`
/// block, surrounded by `border` light modules on every side.
pub fn render_raster(s: &QrSymbol, scale: u32, border: u32) -> (r: RasterImage)
    requires
        scale >= 1,
        raster_side(*s, scale as nat, border as nat) <= u32::MAX,
    ensures
        is_raster_of(r, *s, scale as nat, border as nat),
{
    let n = s.width();
    let side = ((n as u64 + 2 * (border as u64)) * (scale as u64)) as u32;
    let mut rows: Vec<Vec<u8>> = Vec::new();
    let mut y: u32 = 0;
    while y < side
        invariant
            n == s.size(),
            scale >= 1,
            side == raster_side(*s, scale as nat, border as nat),
            y <= side,
            rows@.len() == y,
            forall|yy: int| 0 <= yy < y ==> (#[trigger] rows@[yy])@.len() == side,
            forall|yy: int, xx: int|
                0 <= yy < y && 0 <= xx < side ==> (#[trigger] rows@[yy]@[xx]) == raster_pixel(
                    *s,
                    scale as nat,
                    border as nat,
                    xx,
                    yy,
                ),
        decreases side - y,
    {
        let mrow = y / scale;
        let mut line: Vec<u8> = Vec::new();
        let mut x: u32 = 0;
        while x < side
            invariant
                n == s.size(),
                scale >= 1,
                y < side,
                mrow == y / scale,
                x <= side,
                line@.len() == x,
                forall|xx: int|
                    0 <= xx < x ==> (#[trigger] line@[xx]) == raster_pixel(
                        *s,
                        scale as nat,
                        border as nat,
                        xx,
                        y as int,
                    ),
            decreases side - x,
        {
            let mcol = x / scale;
            let dark = mrow >= border && mcol >= border && ((mrow - border) as usize) < n && ((
            mcol - border) as usize) < n && s.is_dark((mrow - border) as usize, (mcol - border) as usize);
            if dark {
                line.push(DARK);
            } else {
                line.push(LIGHT);
            }
            x += 1;
        }
        rows.push(line);
        y += 1;
    }
    RasterImage { side, rows }
}

/// A coordinate below `lo * scale` lies in a module below `lo`; one at or
/// above `hi * scale` lies in a module at or above `hi`.
proof fn lemma_module_of_pixel(p: int, scale: int, lo: int, hi: int)
    requires
        scale >= 1,
        p >= 0,
    ensures
        p < lo * scale ==> p / scale < lo,
        p >= hi * scale ==> p / scale >= hi,
{
    lemma_fundamental_div_mod(p, scale);
    let q = p / scale;
    let r = p % scale;
    assert(p < lo * scale ==> q < lo) by (nonlinear_arith)
        requires
            p == scale * q + r,
            0 <= r < scale,
    ;
    assert(p >= hi * scale ==> q >= hi) by (nonlinear_arith)
        requires
            p == scale * q + r,
            0 <= r < scale,
    ;
}

/// A raster rendering is `(size + 2 * border) * scale` pixels on each side,
/// and every pixel in the quiet-zone band (within `border * scale` pixels of
/// an edge) is light.
pub proof fn lemma_raster_border(img: RasterImage, s: QrSymbol, scale: nat, border: nat)
    requires
        scale >= 1,
        is_raster_of(img, s, scale, border),
    ensures
        img.side == (s.size() + 2 * border) * scale,
        img.rows@.len() == img.side,
        forall|y: int| 0 <= y < img.side ==> (#[trigger] img.rows@[y])@.len() == img.side,
        forall|y: int, x: int|
            0 <= y < img.side && 0 <= x < img.side && (x < border * scale || y < border * scale
                || x >= (s.size() + border) * scale || y >= (s.size() + border) * scale) ==> (
            #[trigger] img.rows@[y]@[x]) == LIGHT,
{
    assert forall|y: int, x: int|
        0 <= y < img.side && 0 <= x < img.side && (x < border * scale || y < border * scale || x
            >= (s.size() + border) * scale || y >= (s.size() + border) * scale) implies (
    #[trigger] img.rows@[y]@[x]) == LIGHT by {
        lemma_module_of_pixel(x, scale as int, border as int, (s.size() + border) as int);
        lemma_module_of_pixel(y, scale as int, border as int, (s.size() + border) as int);
    }
}

} // verus!
