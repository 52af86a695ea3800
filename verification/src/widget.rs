//! The image widget: a layout rectangle, a source path, the raster computed
//! for that path, and the flag that asks for a redraw.

use std::path::PathBuf;
use vstd::prelude::*;
use crate::error::ImageError;
use crate::geom::{Alignment, Point, Rect};
use crate::raster::{Pixels, Raster};
use crate::render::{content, is_rendering, render, render_failure};
use crate::scale::ImageMode;

verus! {

/// A path of the file system. The library only stores paths, compares them and
/// hands them out; what is inside one is not its concern.
#[verifier::external_type_specification]
#[verifier::external_body]
pub struct ExPathBuf(PathBuf);

/// The state of an image widget.
pub struct ImageState {
    pub rect: Rect,
    pub path: Option<PathBuf>,
    /// `None` until a raster has been computed for the current path; then the
    /// raster, or `None` inside where computing it failed.
    pub cache: Option<Option<Pixels>>,
    pub mode: ImageMode,
    pub border_radius: u32,
    pub alignment: Alignment,
    pub dirty: bool,
}

impl ImageState {
    /// A widget without a path has computed nothing, and a cached raster is
    /// well formed and has the rectangle's size.
    pub open spec fn wf(self) -> bool {
        &&& self.path is None ==> self.cache is None
        &&& self.frame() is Some ==> {
            &&& self.frame()->Some_0.wf()
            &&& self.frame()->Some_0.width == self.rect.w
            &&& self.frame()->Some_0.height == self.rect.h
        }
    }

    /// A fresh widget: nothing cached, left aligned, square corners, in need of drawing.
    pub open spec fn created(rect: Rect, path: Option<PathBuf>, mode: ImageMode) -> ImageState {
        ImageState {
            rect,
            path,
            cache: None,
            mode,
            border_radius: 0,
            alignment: Alignment::Left,
            dirty: true,
        }
    }

    /// A new border radius asks for a redraw and leaves the cache alone.
    pub open spec fn with_border_radius(self, radius: u32) -> ImageState {
        ImageState { border_radius: radius, dirty: true, ..self }
    }

    /// A new alignment changes nothing else, not even the dirty flag.
    pub open spec fn with_alignment(self, alignment: Alignment) -> ImageState {
        ImageState { alignment, ..self }
    }

    /// Replacing the path by an equal one changes nothing; any other path empties the cache.
    pub open spec fn with_path(self, path: Option<PathBuf>) -> ImageState {
        if path == self.path {
            self
        } else {
            ImageState { path, cache: None, dirty: true, ..self }
        }
    }

    /// A new position asks for a redraw and leaves size and cache alone.
    pub open spec fn with_position(self, point: Point) -> ImageState {
        ImageState {
            rect: Rect { x: point.x, y: point.y, w: self.rect.w, h: self.rect.h },
            dirty: true,
            ..self
        }
    }

    /// The same widget, asking for a redraw.
    pub open spec fn marked_dirty(self) -> ImageState {
        ImageState { dirty: true, ..self }
    }

    /// Whether the next draw has to compute a raster.
    pub open spec fn needs_compute(self) -> bool {
        self.path is Some && self.cache is None
    }

    /// The state once `computed` has been offered: it is stored where a raster
    /// was needed and ignored otherwise.
    pub open spec fn with_computed(self, computed: Option<Pixels>) -> ImageState {
        if self.needs_compute() {
            ImageState { cache: Some(computed), ..self }
        } else {
            self
        }
    }

    /// The raster that a draw hands to the display, if there is one.
    pub open spec fn frame(self) -> Option<Pixels> {
        match self.cache {
            Some(Some(pixels)) => Some(pixels),
            _ => None,
        }
    }

    /// The state after the display has been served: the widget stays dirty
    /// exactly when it has a path but no raster.
    pub open spec fn presented(self) -> ImageState {
        ImageState { dirty: self.frame() is None && self.path is Some, ..self }
    }

    /// The state after one draw in which `computed` was offered.
    pub open spec fn drawn(self, computed: Option<Pixels>) -> ImageState {
        self.with_computed(computed).presented()
    }

    /// The state after `n` draws in each of which no raster could be computed.
    pub open spec fn drawn_failing(self, n: nat) -> ImageState
        decreases n,
    {
        if n == 0 {
            self
        } else {
            self.drawn_failing((n - 1) as nat).drawn(None)
        }
    }
}

/// What computing a raster may store in the cache: a rendering of the source
/// where one comes about, and nothing where rendering fails.
pub open spec fn is_image(
    source: Option<Pixels>,
    rect: Rect,
    mode: ImageMode,
    border_radius: u32,
    alignment: Alignment,
    out: Option<Pixels>,
) -> bool {
    match out {
        Some(pixels) => is_rendering(
            source,
            rect,
            mode,
            border_radius,
            alignment,
            Ok::<Pixels, ImageError>(pixels),
        ),
        None => render_failure(source, rect, mode) is Some,
    }
}

/// Setting the path it already has leaves a widget as it is, cache included.
/// Setting another path empties the cache, so that the next draw computes
/// anew where the new path names a source.
pub proof fn lemma_cache_follows_path(
    s: ImageState,
    path: Option<PathBuf>,
    computed: Option<Pixels>,
)
    ensures
        s.with_path(s.path) == s,
        s.with_path(path).with_path(path) == s.with_path(path),
        path != s.path ==> s.with_path(path).cache is None && s.with_path(path).dirty,
        path != s.path && path is Some ==> s.with_path(path).drawn(computed).cache == Some(
            computed,
        ),
{
}

/// Once a raster has been computed, changing the border radius or the
/// alignment does not change what later draws show: the cached raster stays
/// until the path changes.
pub proof fn lemma_cache_outlives_style(
    s: ImageState,
    radius: u32,
    alignment: Alignment,
    computed: Option<Pixels>,
)
    requires
        s.cache is Some,
    ensures
        s.with_border_radius(radius).drawn(computed).cache == s.cache,
        s.with_border_radius(radius).drawn(computed).frame() == s.frame(),
        s.with_alignment(alignment).drawn(computed).frame() == s.frame(),
        s.with_border_radius(radius).dirty,
{
}

/// A failure to compute is kept: while the path stays, every later draw
/// finds the failure in the cache, computes nothing, and leaves the widget
/// dirty, whatever is offered.
pub proof fn lemma_failure_is_kept(s: ImageState, computed: Option<Pixels>)
    requires
        s.path is Some,
        s.cache == Some(None::<Pixels>),
    ensures
        s.drawn(computed).cache == s.cache,
        s.drawn(computed).frame() is None,
        s.drawn(computed).dirty,
{
}

/// A widget whose source never decodes is dirty when created and after any
/// number of draws, and never has a raster to show.
pub proof fn lemma_dirty_while_failing(rect: Rect, path: PathBuf, mode: ImageMode, n: nat)
    ensures
        ImageState::created(rect, Some(path), mode).drawn_failing(n).dirty,
        ImageState::created(rect, Some(path), mode).drawn_failing(n).frame() is None,
        ImageState::created(rect, Some(path), mode).drawn_failing(n).path == Some(path),
    decreases n,
{
    if n > 0 {
        lemma_dirty_while_failing(rect, path, mode, (n - 1) as nat);
    }
}

/// A widget without a path is clean after its first draw and shows nothing.
pub proof fn lemma_pathless_settles(rect: Rect, mode: ImageMode, computed: Option<Pixels>)
    ensures
        ImageState::created(rect, None, mode).dirty,
        !ImageState::created(rect, None, mode).drawn(computed).dirty,
        ImageState::created(rect, None, mode).drawn(computed).frame() is None,
{
}

/// Every operation keeps a widget well formed.
pub proof fn lemma_wf_kept(
    s: ImageState,
    path: Option<PathBuf>,
    radius: u32,
    alignment: Alignment,
    point: Point,
)
    requires
        s.wf(),
    ensures
        s.with_path(path).wf(),
        s.with_border_radius(radius).wf(),
        s.with_alignment(alignment).wf(),
        s.with_position(point).wf(),
        s.marked_dirty().wf(),
        s.presented().wf(),
{
}

/// Compares two paths with `PathBuf`'s own `==`, which compares them
/// component by component.
///
/// Trusted: that comparison is what equality of paths means in the contracts
/// of this library. It is an equivalence, and nothing here tells two paths
/// apart that it holds equal.
#[verifier::external_body]
fn same_path(a: &PathBuf, b: &PathBuf) -> (same: bool)
    ensures
        same == (*a == *b),
{
    a == b
}

fn same_source(a: &Option<PathBuf>, b: &Option<PathBuf>) -> (same: bool)
    ensures
        same == (*a == *b),
{
    match (a, b) {
        (None, None) => true,
        (Some(x), Some(y)) => same_path(x, y),
        _ => false,
    }
}

/// An image widget. Its raster is computed on the first draw after the path
/// was set, and kept until the path changes.
#[derive(Debug)]
pub struct Image {
    rect: Rect,
    path: Option<PathBuf>,
    image: Option<Option<Raster>>,
    mode: ImageMode,
    border_radius: u32,
    alignment: Alignment,
    dirty: bool,
}

impl View for Image {
    type V = ImageState;

    closed spec fn view(&self) -> ImageState {
        ImageState {
            rect: self.rect,
            path: self.path,
            cache: match self.image {
                Some(computed) => Some(content(computed)),
                None => None,
            },
            mode: self.mode,
            border_radius: self.border_radius,
            alignment: self.alignment,
            dirty: self.dirty,
        }
    }
}

impl Image {
    #[verifier::type_invariant]
    spec fn inv(self) -> bool {
        self@.wf()
    }

    /// A widget bound to the source at `path`.
    pub fn new(rect: Rect, path: PathBuf, mode: ImageMode) -> (widget: Image)
        ensures
            widget@ == ImageState::created(rect, Some(path), mode),
            widget@.wf(),
    {
        Image {
            rect,
            path: Some(path),
            image: None,
            mode,
            border_radius: 0,
            alignment: Alignment::Left,
            dirty: true,
        }
    }

    /// Sets the radius used the next time a raster is computed, and asks for a
    /// redraw. A raster that is already cached is kept as it is.
    pub fn set_border_radius(&mut self, radius: u32) -> (widget: &mut Image)
        ensures
            widget@ == old(self)@.with_border_radius(radius),
            widget@.wf(),
            *final(self) == *final(widget),
    {
        proof {
            use_type_invariant(&*self);
        }
        self.border_radius = radius;
        self.dirty = true;
        self
    }

    /// A widget with no source.
    pub fn empty(rect: Rect, mode: ImageMode) -> (widget: Image)
        ensures
            widget@ == ImageState::created(rect, None, mode),
            widget@.wf(),
    {
        Image {
            rect,
            path: None,
            image: None,
            mode,
            border_radius: 0,
            alignment: Alignment::Left,
            dirty: true,
        }
    }

    /// Replaces the path. An equal path changes nothing; any other empties the
    /// cache and asks for a redraw.
    pub fn set_path(&mut self, path: Option<PathBuf>) -> (widget: &mut Image)
        ensures
            widget@ == old(self)@.with_path(path),
            widget@.wf(),
            *final(self) == *final(widget),
    {
        proof {
            use_type_invariant(&*self);
        }
        if !same_source(&path, &self.path) {
            self.image = None;
            self.dirty = true;
            self.path = path;
        }
        self
    }

    /// Sets the alignment used the next time a raster is computed.
    pub fn set_alignment(&mut self, alignment: Alignment) -> (widget: &mut Image)
        ensures
            widget@ == old(self)@.with_alignment(alignment),
            widget@.wf(),
            *final(self) == *final(widget),
    {
        proof {
            use_type_invariant(&*self);
        }
        self.alignment = alignment;
        self
    }

    /// A widget with the given settings and nothing cached, as one that was
    /// stored and is brought back.
    pub fn restore(
        rect: Rect,
        path: Option<PathBuf>,
        mode: ImageMode,
        border_radius: u32,
        alignment: Alignment,
        dirty: bool,
    ) -> (widget: Image)
        ensures
            widget@ == (ImageState {
                rect,
                path: path,
                cache: None,
                mode,
                border_radius,
                alignment,
                dirty,
            }),
            widget@.wf(),
    {
        Image { rect, path, image: None, mode, border_radius, alignment, dirty }
    }

    /// The path of the source, if the widget has one.
    pub fn path(&self) -> (path: Option<&PathBuf>)
        ensures
            path is Some <==> self@.path is Some,
            path is Some ==> Some(*path->Some_0) == self@.path,
    {
        match &self.path {
            Some(path) => Some(path),
            None => None,
        }
    }

    /// The scaling mode.
    pub fn mode(&self) -> (mode: ImageMode)
        ensures
            mode == self@.mode,
    {
        self.mode
    }

    /// The border radius as last set, which a cached raster may predate.
    pub fn border_radius(&self) -> (radius: u32)
        ensures
            radius == self@.border_radius,
    {
        self.border_radius
    }

    /// The alignment as last set, which a cached raster may predate.
    pub fn alignment(&self) -> (alignment: Alignment)
        ensures
            alignment == self@.alignment,
    {
        self.alignment
    }

    /// Computes the raster for a decoded source: `decoded` scaled as `mode`
    /// says for `rect`, its corners rounded by `border_radius`, and fitted to
    /// `rect` with the widget's alignment. `decoded` is `None` where the source
    /// could not be decoded; every failure ends in `None`.
    pub fn image(
        &self,
        decoded: Option<Raster>,
        rect: Rect,
        mode: ImageMode,
        border_radius: u32,
    ) -> (out: Option<Raster>)
        requires
            rect.byte_len() <= usize::MAX,
        ensures
            is_image(
                content(decoded),
                rect,
                mode,
                border_radius,
                self@.alignment,
                content(out),
            ),
            out is None <==> render_failure(content(decoded), rect, mode) is Some,
            out is Some ==> {
                &&& out->Some_0@.wf()
                &&& out->Some_0@.width == rect.w
                &&& out->Some_0@.height == rect.h
            },
    {
        match render(decoded, rect, mode, border_radius, self.alignment) {
            Ok(raster) => Some(raster),
            Err(_) => None,
        }
    }

    /// The path whose source has to be decoded before the next draw, if any:
    /// the widget's path while nothing has been computed for it.
    pub fn pending_path(&self) -> (path: Option<&PathBuf>)
        ensures
            path is Some <==> self@.needs_compute(),
            path is Some ==> Some(*path->Some_0) == self@.path,
    {
        match (&self.path, &self.image) {
            (Some(path), None) => Some(path),
            _ => None,
        }
    }

    /// Fills the cache where it is empty and the widget has a path: with the
    /// raster computed from `decoded`, the decoded source of that path, or with
    /// the failure to compute one. A filled cache is left alone and `decoded` is
    /// dropped. Returns whether there is a raster to show.
    pub fn get_or_compute(&mut self, decoded: Option<Raster>) -> (loaded: bool)
        requires
            old(self)@.rect.byte_len() <= usize::MAX,
        ensures
            final(self)@ == old(self)@.with_computed(final(self)@.frame()),
            old(self)@.needs_compute() ==> is_image(
                content(decoded),
                old(self)@.rect,
                old(self)@.mode,
                old(self)@.border_radius,
                old(self)@.alignment,
                final(self)@.frame(),
            ),
            loaded == final(self)@.frame() is Some,
            final(self)@.wf(),
    {
        proof {
            use_type_invariant(&*self);
        }
        let pending: bool = match (&self.path, &self.image) {
            (Some(_), None) => true,
            _ => false,
        };
        if pending {
            let computed: Option<Raster> = self.image(
                decoded,
                self.rect,
                self.mode,
                self.border_radius,
            );
            self.image = Some(computed);
        }
        match &self.image {
            Some(Some(_)) => true,
            _ => false,
        }
    }

    /// The cached raster, which always has the rectangle's size.
    pub fn raster(&self) -> (frame: Option<&Raster>)
        ensures
            frame is Some <==> self@.frame() is Some,
            frame is Some ==> Some(frame->Some_0@) == self@.frame(),
            self@.wf(),
    {
        proof {
            use_type_invariant(self);
        }
        match &self.image {
            Some(Some(raster)) => Some(raster),
            _ => None,
        }
    }

    /// Records that the display has been served: the widget stays dirty exactly
    /// when it has a path but no raster to show. Returns `true`: a draw counts
    /// as done even when nothing was shown.
    pub fn finish_draw(&mut self) -> (drawn: bool)
        ensures
            drawn,
            final(self)@ == old(self)@.presented(),
            final(self)@.wf(),
    {
        proof {
            use_type_invariant(&*self);
        }
        let loaded: bool = match &self.image {
            Some(Some(_)) => true,
            _ => false,
        };
        let bound: bool = match &self.path {
            Some(_) => true,
            None => false,
        };
        self.dirty = !loaded && bound;
        true
    }

    /// One whole draw on a display that accepts it: fills the cache where
    /// needed, with `decoded` as in `get_or_compute`, and settles the dirty
    /// flag. The raster to show is then `raster()`.
    pub fn draw(&mut self, decoded: Option<Raster>) -> (drawn: bool)
        requires
            old(self)@.rect.byte_len() <= usize::MAX,
        ensures
            drawn,
            final(self)@ == old(self)@.drawn(final(self)@.frame()),
            old(self)@.needs_compute() ==> is_image(
                content(decoded),
                old(self)@.rect,
                old(self)@.mode,
                old(self)@.border_radius,
                old(self)@.alignment,
                final(self)@.frame(),
            ),
            decoded is None ==> final(self)@ == old(self)@.drawn(None),
            final(self)@.dirty <==> final(self)@.frame() is None && old(self)@.path is Some,
            final(self)@.wf(),
    {
        let _ = self.get_or_compute(decoded);
        self.finish_draw()
    }

    /// Whether the widget asks to be drawn.
    pub fn should_draw(&self) -> (dirty: bool)
        ensures
            dirty == self@.dirty,
    {
        self.dirty
    }

    /// Asks for a redraw. The cache is not touched.
    pub fn set_should_draw(&mut self)
        ensures
            final(self)@ == old(self)@.marked_dirty(),
            final(self)@.wf(),
    {
        proof {
            use_type_invariant(&*self);
        }
        self.dirty = true;
    }

    /// Key events are not for this widget: nothing changes and the event is
    /// reported as not handled.
    pub fn handle_key_event(&mut self) -> (handled: bool)
        ensures
            !handled,
            *final(self) == *old(self),
    {
        false
    }

    /// The rectangle the widget occupies.
    pub fn bounding_box(&self) -> (rect: Rect)
        ensures
            rect == self@.rect,
    {
        self.rect
    }

    /// Moves the widget and asks for a redraw. Size and cache are not touched.
    pub fn set_position(&mut self, point: Point)
        ensures
            final(self)@ == old(self)@.with_position(point),
            final(self)@.wf(),
    {
        proof {
            use_type_invariant(&*self);
        }
        self.rect.x = point.x;
        self.rect.y = point.y;
        self.dirty = true;
    }
}

} // verus!
