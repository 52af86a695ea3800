//! Compositing: placing a raster on a transparent background of the
//! rectangle's size.

use image::{imageops, ImageBuffer, Rgba, RgbaImage};
use vstd::prelude::*;
use crate::geom::{align_offset, Alignment, Rect};
use crate::raster::{Pixels, Raster};

verus! {

/// The buffer that `image::imageops::overlay` leaves in a `bottom_w` by
/// `bottom_h` RGBA image after blending a `top_w` by `top_h` RGBA image over it
/// with its top-left corner at column `x`, row `y`.
pub uninterp spec fn overlaid(
    bottom: Seq<u8>,
    bottom_w: u32,
    bottom_h: u32,
    top: Seq<u8>,
    top_w: u32,
    top_h: u32,
    x: u32,
    y: u32,
) -> Seq<u8>;

/// Whether the pixel at `(px, py)` of the lower raster lies under a raster of
/// `over`'s size whose top-left corner is at `(x, y)`.
pub open spec fn is_covered(over: Pixels, x: int, y: int, px: int, py: int) -> bool {
    x <= px < x + over.width && y <= py < y + over.height
}

/// What is known of each pixel of `out`, the result of blending `over` onto
/// `under` at `(x, y)`: a pixel that `over` does not cover, or covers with a
/// fully transparent pixel, is `under`'s; one that `over` covers with a fully
/// opaque pixel is `over`'s. Of a pixel covered by a partly transparent one
/// nothing is said here.
pub open spec fn blends(under: Pixels, over: Pixels, x: int, y: int, out: Pixels) -> bool {
    &&& out.width == under.width
    &&& out.height == under.height
    &&& out.bytes.len() == under.bytes.len()
    &&& forall|px: int, py: int, c: int|
        under.contains(px, py) && 0 <= c < 4 ==> {
            let alpha = over.channel(px - x, py - y, 3);
            if !is_covered(over, x, y, px, py) || alpha == 0 {
                #[trigger] out.channel(px, py, c) == under.channel(px, py, c)
            } else if alpha == 255 {
                out.channel(px, py, c) == over.channel(px - x, py - y, c)
            } else {
                true
            }
        }
}

/// Calls `image::imageops::overlay` on the two buffers, each wrapped as an RGBA
/// image of its dimensions, and hands back the lower buffer.
///
/// Trusted: the result is a function of the arguments alone (the crate blends
/// pixel by pixel in single-precision arithmetic, with no state and no choice of
/// code path), so it has a name. The buffer keeps its length. The crate visits
/// exactly the lower pixels that the upper image covers, each with the upper
/// pixel that lies on it; its blend leaves the lower pixel untouched where the
/// upper one has alpha 0, and replaces it by the upper one where that has alpha
/// 255.
#[verifier::external_body]
fn overlay(
    bottom: Vec<u8>,
    bottom_w: u32,
    bottom_h: u32,
    top: &Vec<u8>,
    top_w: u32,
    top_h: u32,
    x: u32,
    y: u32,
) -> (out: Vec<u8>)
    requires
        bottom@.len() == Pixels::byte_len(bottom_w, bottom_h),
        top@.len() == Pixels::byte_len(top_w, top_h),
    ensures
        out@ == overlaid(bottom@, bottom_w, bottom_h, top@, top_w, top_h, x, y),
        blends(
            Pixels { width: bottom_w, height: bottom_h, bytes: bottom@ },
            Pixels { width: top_w, height: top_h, bytes: top@ },
            x as int,
            y as int,
            Pixels { width: bottom_w, height: bottom_h, bytes: out@ },
        ),
{
    let mut under = RgbaImage::from_raw(bottom_w, bottom_h, bottom).unwrap();
    let over = ImageBuffer::<Rgba<u8>, &[u8]>::from_raw(top_w, top_h, top.as_slice()).unwrap();
    imageops::overlay(&mut under, &over, i64::from(x), i64::from(y));
    under.into_raw()
}

/// The raster handed to the display for `raster` in `rect`: `raster` itself
/// when it already has the rectangle's size, and otherwise `raster` blended
/// onto a transparent background of that size, at the column its alignment
/// gives and at the top row.
pub open spec fn placed(raster: Pixels, rect: Rect, alignment: Alignment) -> Pixels {
    if raster.width == rect.w && raster.height == rect.h {
        raster
    } else {
        Pixels {
            width: rect.w,
            height: rect.h,
            bytes: overlaid(
                Pixels::transparent(rect.w, rect.h).bytes,
                rect.w,
                rect.h,
                raster.bytes,
                raster.width,
                raster.height,
                align_offset(alignment, rect.w, raster.width),
                0,
            ),
        }
    }
}

/// Fits `raster` to `rect`. The result always has the rectangle's size.
pub fn place(raster: Raster, rect: Rect, alignment: Alignment) -> (out: Raster)
    requires
        rect.byte_len() <= usize::MAX,
    ensures
        out@ == placed(raster@, rect, alignment),
        out@.wf(),
        out@.width == rect.w,
        out@.height == rect.h,
        !(raster@.width == rect.w && raster@.height == rect.h) ==> blends(
            Pixels::transparent(rect.w, rect.h),
            raster@,
            align_offset(alignment, rect.w, raster@.width) as int,
            0,
            out@,
        ),
{
    let (width, height) = raster.dimensions();
    if width == rect.w && height == rect.h {
        return raster;
    }
    let x: u32 = alignment.offset(rect.w, width);
    let background: Vec<u8> = Raster::new(rect.w, rect.h).into_raw();
    let bytes: Vec<u8> = overlay(background, rect.w, rect.h, raster.as_raw(), width, height, x, 0);
    Raster::from_parts(rect.w, rect.h, bytes)
}

} // verus!
