//! Scaling policy and resampling: how large a source becomes under each mode,
//! and the resize itself.

use fast_image_resize::images::Image as PixelImage;
use fast_image_resize::{FilterType, PixelType, ResizeAlg, ResizeOptions, Resizer};
use vstd::math::min;
use vstd::prelude::*;
use crate::error::ImageError;
use crate::geom::{product, Rect};
use crate::raster::{Pixels, Raster};

verus! {

/// How a source image is fitted to the widget's rectangle.
#[derive(Debug, Clone, Copy, PartialEq, Eq, Structural)]
pub enum ImageMode {
    /// Keep the source at its own size.
    Raw,
    /// Resize to exactly the rectangle's size, stretching where the aspect ratios differ.
    Cover,
    /// Resize to the largest size inside the rectangle that keeps the source's aspect ratio.
    Contain,
}

/// Width of a `src_w` by `src_h` source fitted inside `rect` with its aspect ratio kept.
pub open spec fn contain_width(rect: Rect, src_w: u32, src_h: u32) -> int {
    min(rect.w as int, (rect.h * src_w) / (src_h as int))
}

/// Height of a `src_w` by `src_h` source fitted inside `rect` with its aspect ratio kept.
pub open spec fn contain_height(rect: Rect, src_w: u32, src_h: u32) -> int {
    min(rect.h as int, (rect.w * src_h) / (src_w as int))
}

/// The size a source takes under `mode`, before compositing.
pub open spec fn target_size(mode: ImageMode, rect: Rect, src_w: u32, src_h: u32) -> Result<
    (u32, u32),
    ImageError,
> {
    match mode {
        ImageMode::Raw => Ok((src_w, src_h)),
        ImageMode::Cover => Ok((rect.w, rect.h)),
        ImageMode::Contain => if src_w == rect.w && src_h == rect.h {
            Ok((src_w, src_h))
        } else if src_w == 0 || src_h == 0 {
            Err(ImageError::InvalidDimension)
        } else {
            Ok(
                (
                    contain_width(rect, src_w, src_h) as u32,
                    contain_height(rect, src_w, src_h) as u32,
                ),
            )
        },
    }
}

/// Whether `mode` sends a source of this size through the resampler.
pub open spec fn needs_resize(mode: ImageMode, rect: Rect, src_w: u32, src_h: u32) -> bool {
    mode != ImageMode::Raw && !(src_w == rect.w && src_h == rect.h)
}

/// An aspect-preserving fit stays inside the rectangle and touches it on at least one axis.
pub proof fn lemma_contain_fits(rect: Rect, src_w: u32, src_h: u32)
    requires
        src_w > 0,
        src_h > 0,
    ensures
        0 <= contain_width(rect, src_w, src_h) <= rect.w,
        0 <= contain_height(rect, src_w, src_h) <= rect.h,
        contain_width(rect, src_w, src_h) == rect.w || contain_height(rect, src_w, src_h) == rect.h,
{
    let rw = rect.w as int;
    let rh = rect.h as int;
    let sw = src_w as int;
    let sh = src_h as int;
    assert(0 <= (rh * sw) / sh) by (nonlinear_arith)
        requires
            0 <= rh,
            0 < sw,
            0 < sh,
    ;
    assert(0 <= (rw * sh) / sw) by (nonlinear_arith)
        requires
            0 <= rw,
            0 < sw,
            0 < sh,
    ;
    if (rw * sh) / sw < rh {
        assert((rh * sw) / sh >= rw) by (nonlinear_arith)
            requires
                (rw * sh) / sw < rh,
                0 <= rw,
                0 <= rh,
                0 < sw,
                0 < sh,
        ;
    }
}

impl ImageMode {
    /// The size to which a `src_w` by `src_h` source is brought for `rect`.
    pub fn target_size(self, rect: Rect, src_w: u32, src_h: u32) -> (r: Result<
        (u32, u32),
        ImageError,
    >)
        ensures
            r == target_size(self, rect, src_w, src_h),
            self == ImageMode::Raw ==> r == Ok::<(u32, u32), ImageError>((src_w, src_h)),
            self == ImageMode::Cover ==> r == Ok::<(u32, u32), ImageError>((rect.w, rect.h)),
            self == ImageMode::Contain ==> (r is Err <==> !(src_w == rect.w && src_h == rect.h) && (
            src_w == 0 || src_h == 0)),
            self == ImageMode::Contain && r is Ok ==> {
                let (w, h) = r->Ok_0;
                w <= rect.w && h <= rect.h && (w == rect.w || h == rect.h)
            },
    {
        match self {
            ImageMode::Raw => Ok((src_w, src_h)),
            ImageMode::Cover => Ok((rect.w, rect.h)),
            ImageMode::Contain => {
                if src_w == rect.w && src_h == rect.h {
                    Ok((src_w, src_h))
                } else if src_w == 0 || src_h == 0 {
                    Err(ImageError::InvalidDimension)
                } else {
                    proof {
                        lemma_contain_fits(rect, src_w, src_h);
                    }
                    let by_height: u64 = product(rect.h, src_w) / (src_h as u64);
                    let by_width: u64 = product(rect.w, src_h) / (src_w as u64);
                    let new_w: u32 = if by_height < rect.w as u64 {
                        by_height as u32
                    } else {
                        rect.w
                    };
                    let new_h: u32 = if by_width < rect.h as u64 {
                        by_width as u32
                    } else {
                        rect.h
                    };
                    Ok((new_w, new_h))
                }
            },
        }
    }
}

/// Whether the resampler's buffers fit in memory: the source, the result, and
/// the raster it builds between the two, which is as wide as the source and as
/// high as the result. Each is counted with one spare pixel, as the resampler
/// allocates its scratch buffers.
pub open spec fn resample_fits(src_w: u32, src_h: u32, new_w: u32, new_h: u32) -> bool {
    &&& 4 * (src_w * src_h) + 4 <= usize::MAX
    &&& 4 * (src_w * new_h) + 4 <= usize::MAX
    &&& 4 * (new_w * new_h) + 4 <= usize::MAX
}

fn can_resample(src_w: u32, src_h: u32, new_w: u32, new_h: u32) -> (fits: bool)
    ensures
        fits == resample_fits(src_w, src_h, new_w, new_h),
{
    let most: u64 = ((usize::MAX - 4) / 4) as u64;
    product(src_w, src_h) <= most && product(src_w, new_h) <= most && product(new_w, new_h) <= most
}

/// What is certain of the bytes that resampling `src` to `new_w` by `new_h`
/// gives: their number; that they are all zero where the source or the result
/// has no pixels; and that they are the source's where the size does not
/// change. The values of resampled pixels are left open.
pub open spec fn is_resampling(src: Pixels, new_w: u32, new_h: u32, out: Seq<u8>) -> bool {
    &&& out.len() == Pixels::byte_len(new_w, new_h)
    &&& src.width == 0 || src.height == 0 || new_w == 0 || new_h == 0 ==> out
        == Pixels::transparent(new_w, new_h).bytes
    &&& src.width == new_w && src.height == new_h ==> out == src.bytes
}

/// Calls `fast_image_resize`: wraps a copy of `data` as a four-bytes-per-pixel
/// image (`Image::from_vec_u8`), allocates the destination (`Image::new`), runs
/// `Resizer::resize` with the convolution algorithm and the bilinear filter, and
/// hands back the destination's buffer (`Image::into_vec`).
///
/// Trusted, of every outcome:
/// - The call succeeds. The crate refuses a source only when its buffer is
///   shorter than its dimensions require or misaligned for its pixel type, and
///   byte pixels need no alignment; it refuses a resize only for mismatched
///   pixel types or a bad crop box, and here both images have the same type
///   and no crop is asked for.
/// - The destination is allocated zeroed at four bytes per pixel of the new
///   size and is returned whole.
/// - Where the source or the destination has a side of length zero, the
///   resizer returns at once and the destination stays zeroed.
/// - Where the two sizes are equal, the resizer copies the source row by row.
///
/// Nothing is claimed of resampled pixel values: the crate picks its code path
/// by the processor it runs on.
#[verifier::external_body]
fn resample(width: u32, height: u32, data: &Vec<u8>, new_width: u32, new_height: u32) -> (out:
    Option<Vec<u8>>)
    requires
        data@.len() == Pixels::byte_len(width, height),
        resample_fits(width, height, new_width, new_height),
    ensures
        out is Some,
        is_resampling(Pixels { width, height, bytes: data@ }, new_width, new_height, out->Some_0@),
{
    let src = PixelImage::from_vec_u8(width, height, data.clone(), PixelType::U8x4).ok()?;
    let mut dst = PixelImage::new(new_width, new_height, PixelType::U8x4);
    let options = ResizeOptions::new().resize_alg(ResizeAlg::Convolution(FilterType::Bilinear));
    Resizer::new().resize(&src, &mut dst, &options).ok()?;
    Some(dst.into_vec())
}

/// Resamples `src` to exactly `new_width` by `new_height` with a bilinear
/// convolution filter. Fails only when the resampler's buffers cannot be held in
/// memory.
pub fn resize_image(src: &Raster, new_width: u32, new_height: u32) -> (r: Option<Raster>)
    ensures
        r is Some <==> resample_fits(src@.width, src@.height, new_width, new_height),
        r is Some ==> {
            &&& r->Some_0@.width == new_width
            &&& r->Some_0@.height == new_height
            &&& is_resampling(src@, new_width, new_height, r->Some_0@.bytes)
        },
{
    if !can_resample(src.width(), src.height(), new_width, new_height) {
        return None;
    }
    match resample(src.width(), src.height(), src.as_raw(), new_width, new_height) {
        Some(buffer) => Raster::from_raw(new_width, new_height, buffer),
        None => None,
    }
}

/// The error, if any, that keeps a source of this size from being scaled.
pub open spec fn scaling_failure(mode: ImageMode, rect: Rect, src_w: u32, src_h: u32) -> Option<
    ImageError,
> {
    match target_size(mode, rect, src_w, src_h) {
        Err(e) => Some(e),
        Ok((w, h)) => if needs_resize(mode, rect, src_w, src_h) && !resample_fits(
            src_w,
            src_h,
            w,
            h,
        ) {
            Some(ImageError::ResizeFailure)
        } else {
            None
        },
    }
}

/// What `scale` may return for a source: the error that stands in the way, the
/// source itself where the mode asks for no resampling, and otherwise a
/// resampling of the source to the target size.
pub open spec fn is_scaling(
    source: Pixels,
    rect: Rect,
    mode: ImageMode,
    out: Result<Pixels, ImageError>,
) -> bool {
    match scaling_failure(mode, rect, source.width, source.height) {
        Some(e) => out == Err::<Pixels, ImageError>(e),
        None => if !needs_resize(mode, rect, source.width, source.height) {
            out == Ok::<Pixels, ImageError>(source)
        } else {
            &&& out is Ok
            &&& target_size(mode, rect, source.width, source.height) == Ok::<
                (u32, u32),
                ImageError,
            >((out->Ok_0.width, out->Ok_0.height))
            &&& is_resampling(source, out->Ok_0.width, out->Ok_0.height, out->Ok_0.bytes)
        },
    }
}

/// The sizes that scaling gives. Without resampling the source is kept as it is,
/// pixel for pixel. Filling the rectangle gives exactly the rectangle's size,
/// whatever the source's. An aspect-preserving fit stays inside the rectangle
/// and touches it on at least one axis.
pub proof fn lemma_scaling_sizes(source: Pixels, rect: Rect, mode: ImageMode, out: Pixels)
    requires
        is_scaling(source, rect, mode, Ok::<Pixels, ImageError>(out)),
    ensures
        mode == ImageMode::Raw ==> out == source,
        mode == ImageMode::Cover ==> out.width == rect.w && out.height == rect.h,
        mode == ImageMode::Contain ==> {
            &&& out.width <= rect.w
            &&& out.height <= rect.h
            &&& out.width == rect.w || out.height == rect.h
        },
        !needs_resize(mode, rect, source.width, source.height) ==> out == source,
{
    if mode == ImageMode::Contain && needs_resize(mode, rect, source.width, source.height) {
        lemma_contain_fits(rect, source.width, source.height);
    }
}

/// The content of a raster that may have failed to come about.
pub open spec fn outcome(r: Result<Raster, ImageError>) -> Result<Pixels, ImageError> {
    match r {
        Ok(raster) => Ok(raster@),
        Err(e) => Err(e),
    }
}

/// Brings `source` to the size that `mode` asks for in `rect`.
pub fn scale(source: Raster, rect: Rect, mode: ImageMode) -> (r: Result<Raster, ImageError>)
    ensures
        is_scaling(source@, rect, mode, outcome(r)),
        r is Err <==> scaling_failure(mode, rect, source@.width, source@.height) is Some,
        r is Ok ==> r->Ok_0@.wf(),
        mode == ImageMode::Raw ==> outcome(r) == Ok::<Pixels, ImageError>(source@),
        mode == ImageMode::Cover && r is Ok ==> r->Ok_0@.width == rect.w && r->Ok_0@.height
            == rect.h,
        mode == ImageMode::Contain && r is Ok ==> {
            let out = r->Ok_0@;
            out.width <= rect.w && out.height <= rect.h && (out.width == rect.w || out.height
                == rect.h)
        },
{
    let (src_w, src_h) = source.dimensions();
    let (new_w, new_h) = match mode.target_size(rect, src_w, src_h) {
        Ok(size) => size,
        Err(e) => {
            return Err(e);
        },
    };
    let unchanged: bool = match mode {
        ImageMode::Raw => true,
        _ => src_w == rect.w && src_h == rect.h,
    };
    if unchanged {
        return Ok(source);
    }
    match resize_image(&source, new_w, new_h) {
        Some(scaled) => Ok(scaled),
        None => Err(ImageError::ResizeFailure),
    }
}

} // verus!
