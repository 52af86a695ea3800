//! The pipeline from a decoded source to the raster that is shown:
//! scale, round, composite.

use vstd::prelude::*;
use crate::compose::{place, placed};
use crate::error::ImageError;
use crate::geom::{Alignment, Rect};
use crate::raster::{Pixels, Raster};
use crate::round::{round, rounded};
use crate::scale::{is_scaling, outcome, scale, scaling_failure, ImageMode};

verus! {

/// A scaled raster with its corners rounded and fitted to the rectangle.
pub open spec fn finished(
    scaled: Pixels,
    rect: Rect,
    border_radius: u32,
    alignment: Alignment,
) -> Pixels {
    placed(rounded(scaled, border_radius), rect, alignment)
}

/// Rounds the corners of a scaled raster and fits it to the rectangle.
pub fn finish(scaled: Raster, rect: Rect, border_radius: u32, alignment: Alignment) -> (out: Raster)
    requires
        rect.byte_len() <= usize::MAX,
    ensures
        out@ == finished(scaled@, rect, border_radius, alignment),
        out@.wf(),
        out@.width == rect.w,
        out@.height == rect.h,
{
    place(round(scaled, border_radius), rect, alignment)
}

/// The error, if any, with which rendering a source ends. A missing source is a
/// decode failure; a present one fails as its scaling does.
pub open spec fn render_failure(source: Option<Pixels>, rect: Rect, mode: ImageMode) -> Option<
    ImageError,
> {
    match source {
        None => Some(ImageError::DecodeFailure),
        Some(src) => scaling_failure(mode, rect, src.width, src.height),
    }
}

/// What rendering may return: the error where there is one, and otherwise the
/// finished form of some scaling of the source.
pub open spec fn is_rendering(
    source: Option<Pixels>,
    rect: Rect,
    mode: ImageMode,
    border_radius: u32,
    alignment: Alignment,
    out: Result<Pixels, ImageError>,
) -> bool {
    match render_failure(source, rect, mode) {
        Some(e) => out == Err::<Pixels, ImageError>(e),
        None => exists|scaled: Pixels|
            {
                &&& #[trigger] is_scaling(
                    source->Some_0,
                    rect,
                    mode,
                    Ok::<Pixels, ImageError>(scaled),
                )
                &&& out == Ok::<Pixels, ImageError>(
                    finished(scaled, rect, border_radius, alignment),
                )
            },
    }
}

/// Whatever is rendered has exactly the rectangle's size.
pub proof fn lemma_rendering_fills_rect(
    source: Option<Pixels>,
    rect: Rect,
    mode: ImageMode,
    border_radius: u32,
    alignment: Alignment,
    out: Pixels,
)
    requires
        is_rendering(
            source,
            rect,
            mode,
            border_radius,
            alignment,
            Ok::<Pixels, ImageError>(out),
        ),
    ensures
        out.width == rect.w,
        out.height == rect.h,
{
}

/// The content of a decoded source that may be missing.
pub open spec fn content(r: Option<Raster>) -> Option<Pixels> {
    match r {
        Some(raster) => Some(raster@),
        None => None,
    }
}

/// Renders a decoded source for `rect`: scales it as `mode` says, rounds its
/// corners by `border_radius`, and fits it to the rectangle with `alignment`.
/// `decoded` is `None` where decoding failed.
pub fn render(
    decoded: Option<Raster>,
    rect: Rect,
    mode: ImageMode,
    border_radius: u32,
    alignment: Alignment,
) -> (r: Result<Raster, ImageError>)
    requires
        rect.byte_len() <= usize::MAX,
    ensures
        is_rendering(content(decoded), rect, mode, border_radius, alignment, outcome(r)),
        r is Err <==> render_failure(content(decoded), rect, mode) is Some,
        r is Ok ==> r->Ok_0@.wf() && r->Ok_0@.width == rect.w && r->Ok_0@.height == rect.h,
{
    let source: Raster = match decoded {
        Some(source) => source,
        None => {
            return Err(ImageError::DecodeFailure);
        },
    };
    let scaled: Raster = match scale(source, rect, mode) {
        Ok(scaled) => scaled,
        Err(e) => {
            return Err(e);
        },
    };
    let out: Raster = finish(scaled, rect, border_radius, alignment);
    Ok(out)
}

} // verus!
