//! The producer side of a layer: the mailbox the browser's frames go into, and
//! what replaces, joins or outdates what.

use vstd::prelude::*;

use crate::abi::min_int;
use crate::abi::JfnRect;
use crate::wayland::layer::Present;
use crate::wayland::layer::PresentError;
use crate::wayland::layer::SharedTexture;
use crate::wayland::layer::ViewportState;
use crate::wayland::shm_shadow::checked_frame_len;
use crate::wayland::shm_shadow::copy_dirty_rect;
use crate::wayland::shm_shadow::dirty_rect;
use crate::wayland::shm_shadow::frame_len;
use crate::wayland::shm_shadow::full_view;
use crate::wayland::shm_shadow::rects_view;
use crate::wayland::shm_shadow::ShmPayload;
use crate::wayland::shm_shadow::ShmRect;
use crate::wayland::shm_shadow::ShmRectView;

verus! {

/// How a layer is painted.
#[derive(Clone, Copy, PartialEq, Eq, Structural, Debug)]
pub enum Kind {
    Gpu,
    Shm,
}

/// A frame for the GPU painter.
pub struct GpuPayload {
    pub pixels: Vec<u8>,
    pub dirty: Vec<JfnRect>,
    pub width: u32,
    pub height: u32,
    pub stride: u32,
}

/// The one frame waiting for the worker.
pub enum PendingFrame<F> {
    Gpu(GpuPayload),
    Shm(ShmPayload),
    Dmabuf(SharedTexture<F>),
    Placeholder(u8, u8, u8),
}

/// Whether the worker's picture is that of the frames handed over so far.
/// Every event that invalidates it (dmabuf, placeholder, hide, resize) resets
/// it to `Stale`, or a later dirty-only frame would patch stale pixels.
#[derive(Clone, Copy, PartialEq, Eq, Debug)]
pub enum ShadowState {
    Stale,
    Valid { size: (i32, i32) },
}

/// What the producers have asked for and the worker has not yet taken.
pub struct LayerState<F> {
    pub pending: Option<PendingFrame<F>>,
    pub shadow: ShadowState,
    pub viewport: ViewportState,
    pub visible: bool,
    pub hide_pending: bool,
    pub viewport_dirty: bool,
    pub shutdown: bool,
}

pub ghost struct GpuView {
    pub pixels: Seq<u8>,
    pub dirty: Seq<JfnRect>,
    pub width: u32,
    pub height: u32,
    pub stride: u32,
}

pub ghost enum PendingView<F> {
    Gpu(GpuView),
    Shm { rects: Seq<ShmRectView>, full_pixels: Option<Seq<u8>>, width: i32, height: i32 },
    Dmabuf(SharedTexture<F>),
    Placeholder(u8, u8, u8),
}

pub ghost struct LayerView<F> {
    pub pending: Option<PendingView<F>>,
    pub shadow: ShadowState,
    pub viewport: ViewportState,
    pub visible: bool,
    pub hide_pending: bool,
    pub viewport_dirty: bool,
    pub shutdown: bool,
}

impl<F> View for PendingFrame<F> {
    type V = PendingView<F>;

    open spec fn view(&self) -> PendingView<F> {
        match *self {
            PendingFrame::Gpu(p) => PendingView::Gpu(
                GpuView {
                    pixels: p.pixels@,
                    dirty: p.dirty@,
                    width: p.width,
                    height: p.height,
                    stride: p.stride,
                },
            ),
            PendingFrame::Shm(p) => PendingView::Shm {
                rects: rects_view(p.rects@),
                full_pixels: full_view(p.full_pixels),
                width: p.width,
                height: p.height,
            },
            PendingFrame::Dmabuf(t) => PendingView::Dmabuf(t),
            PendingFrame::Placeholder(r, g, b) => PendingView::Placeholder(r, g, b),
        }
    }
}

pub open spec fn pending_view<F>(p: Option<PendingFrame<F>>) -> Option<PendingView<F>> {
    match p {
        Some(f) => Some(f@),
        None => None,
    }
}

impl<F> View for LayerState<F> {
    type V = LayerView<F>;

    open spec fn view(&self) -> LayerView<F> {
        LayerView {
            pending: pending_view(self.pending),
            shadow: self.shadow,
            viewport: self.viewport,
            visible: self.visible,
            hide_pending: self.hide_pending,
            viewport_dirty: self.viewport_dirty,
            shutdown: self.shutdown,
        }
    }
}

impl<F> LayerView<F> {
    pub open spec fn with_visible(self, visible: bool) -> Self {
        if visible {
            LayerView { visible, ..self }
        } else {
            LayerView {
                visible,
                pending: None,
                hide_pending: true,
                shadow: ShadowState::Stale,
                ..self
            }
        }
    }

    pub open spec fn resized(self, viewport: ViewportState) -> Self {
        if self.viewport == viewport {
            self
        } else {
            LayerView { viewport, viewport_dirty: true, shadow: ShadowState::Stale, ..self }
        }
    }

    pub open spec fn with_placeholder(self, r: u8, g: u8, b: u8) -> Self {
        LayerView {
            pending: Some(PendingView::Placeholder(r, g, b)),
            shadow: ShadowState::Stale,
            ..self
        }
    }

    pub open spec fn with_dmabuf(self, frame: SharedTexture<F>) -> Self {
        LayerView {
            pending: Some(PendingView::Dmabuf(frame)),
            shadow: ShadowState::Stale,
            ..self
        }
    }

    /// A dirty-only frame would not do: the worker's picture is outdated or has
    /// another extent, or a whole frame it would replace is still waiting.
    pub open spec fn needs_full(self, width: i32, height: i32) -> bool {
        ||| self.shadow != (ShadowState::Valid { size: (width, height) })
        ||| self.pending matches Some(PendingView::Shm { full_pixels: Some(_), .. })
    }

    pub open spec fn with_shm(
        self,
        rects: Seq<ShmRectView>,
        full_pixels: Option<Seq<u8>>,
        width: i32,
        height: i32,
    ) -> Self {
        if full_pixels is Some {
            LayerView {
                pending: Some(PendingView::Shm { rects, full_pixels, width, height }),
                shadow: ShadowState::Valid { size: (width, height) },
                ..self
            }
        } else {
            match self.pending {
                Some(
                    PendingView::Shm { rects: earlier, full_pixels: None, width: w, height: h },
                ) if w == width && h == height => LayerView {
                    pending: Some(
                        PendingView::Shm {
                            rects: earlier + rects,
                            full_pixels: None,
                            width,
                            height,
                        },
                    ),
                    ..self
                },
                _ => LayerView {
                    pending: Some(PendingView::Shm { rects, full_pixels, width, height }),
                    ..self
                },
            }
        }
    }
}

impl<F> LayerState<F> {
    pub fn new(viewport: ViewportState, visible: bool) -> (s: Self)
        ensures
            s@ == (LayerView::<F> {
                pending: None,
                shadow: ShadowState::Stale,
                viewport,
                visible,
                hide_pending: false,
                viewport_dirty: false,
                shutdown: false,
            }),
    {
        LayerState {
            pending: None,
            shadow: ShadowState::Stale,
            viewport,
            visible,
            hide_pending: false,
            viewport_dirty: false,
            shutdown: false,
        }
    }

    pub fn set_visible(&mut self, visible: bool)
        ensures
            final(self)@ == old(self)@.with_visible(visible),
    {
        self.visible = visible;
        if !visible {
            self.pending = None;
            self.hide_pending = true;
            self.shadow = ShadowState::Stale;
        }
    }

    /// Called once per frame; an unchanged extent leaves everything alone, or
    /// the shadow would be outdated by every frame and no dirty-only frame
    /// could ever join another.
    pub fn resize(&mut self, viewport: ViewportState)
        ensures
            final(self)@ == old(self)@.resized(viewport),
    {
        if self.viewport == viewport {
            return ;
        }
        self.viewport = viewport;
        self.viewport_dirty = true;
        self.shadow = ShadowState::Stale;
    }

    pub fn request_placeholder(&mut self, r: u8, g: u8, b: u8)
        ensures
            final(self)@ == old(self)@.with_placeholder(r, g, b),
    {
        self.pending = Some(PendingFrame::Placeholder(r, g, b));
        self.shadow = ShadowState::Stale;
    }

    pub fn present_dmabuf(&mut self, frame: SharedTexture<F>)
        ensures
            final(self)@ == old(self)@.with_dmabuf(frame),
    {
        self.pending = Some(PendingFrame::Dmabuf(frame));
        self.shadow = ShadowState::Stale;
    }

    pub fn enqueue_gpu(&mut self, payload: GpuPayload)
        ensures
            final(self)@ == (LayerView {
                pending: Some(PendingFrame::<F>::Gpu(payload)@),
                ..old(self)@
            }),
    {
        self.pending = Some(PendingFrame::Gpu(payload));
    }

    pub fn needs_full_copy(&self, width: i32, height: i32) -> (r: bool)
        ensures
            r == self@.needs_full(width, height),
    {
        let stale = match self.shadow {
            ShadowState::Valid { size } => size.0 != width || size.1 != height,
            ShadowState::Stale => true,
        };
        let full_waiting = match &self.pending {
            Some(PendingFrame::Shm(p)) => p.full_pixels.is_some(),
            _ => false,
        };
        stale || full_waiting
    }

    /// Merges dirty rects into a co-pending dirty-only frame of the same size
    /// instead of replacing it and dropping the earlier rects.
    pub fn store_shm(
        &mut self,
        rects: Vec<ShmRect>,
        full_pixels: Option<Vec<u8>>,
        width: i32,
        height: i32,
    )
        ensures
            final(self)@ == old(self)@.with_shm(
                rects_view(rects@),
                full_view(full_pixels),
                width,
                height,
            ),
    {
        let mut rects = rects;
        if full_pixels.is_some() {
            self.shadow = ShadowState::Valid { size: (width, height) };
        } else {
            match self.pending.take() {
                Some(PendingFrame::Shm(existing)) => {
                    if existing.full_pixels.is_none() && existing.width == width
                        && existing.height == height {
                        let ghost earlier = rects_view(existing.rects@);
                        let ghost later = rects_view(rects@);
                        let mut all = existing.rects;
                        all.append(&mut rects);
                        rects = all;
                        assert(rects_view(rects@) =~= earlier + later);
                    }
                },
                _ => {},
            }
        }
        self.pending = Some(PendingFrame::Shm(ShmPayload { rects, full_pixels, width, height }));
    }
}

/// The way a software frame takes.
#[derive(Clone, Copy, PartialEq, Eq, Structural, Debug)]
pub enum Route {
    Gpu,
    Shm,
}

pub fn route_software(kind: Kind, gpu_failed: bool) -> (r: Route)
    ensures
        r == (if kind == Kind::Gpu && !gpu_failed {
            Route::Gpu
        } else {
            Route::Shm
        }),
{
    match kind {
        Kind::Gpu if !gpu_failed => Route::Gpu,
        _ => Route::Shm,
    }
}

pub fn validate_present_dims(width: i32, height: i32) -> (r: Result<(), PresentError>)
    ensures
        r == (if width <= 0 || height <= 0 {
            Err::<(), PresentError>(PresentError::BadDimensions(width, height))
        } else {
            Ok::<(), PresentError>(())
        }),
{
    if width <= 0 || height <= 0 {
        return Err(PresentError::BadDimensions(width, height));
    }
    Ok(())
}

/// The parts of a frame that `dirty` covers, the empty ones left out.
pub open spec fn dirty_rects(
    pixels: Seq<u8>,
    stride: int,
    width: int,
    height: int,
    dirty: Seq<JfnRect>,
) -> Seq<ShmRectView>
    decreases dirty.len(),
{
    if dirty.len() == 0 {
        Seq::empty()
    } else {
        let before = dirty_rects(pixels, stride, width, height, dirty.drop_last());
        match dirty_rect(pixels, stride, width, height, dirty.last()) {
            Some(r) => before.push(r),
            None => before,
        }
    }
}

/// A layer as its producers see it.
pub struct LayerActor<F> {
    pub kind: Kind,
    pub state: LayerState<F>,
    /// Set by the worker once its painter has failed.
    pub gpu_failed: bool,
}

/// What a software frame does to the mailbox of a shared-memory layer.
pub open spec fn shm_enqueued<F>(
    s: LayerView<F>,
    pixels: Seq<u8>,
    width: i32,
    height: i32,
    dirty: Seq<JfnRect>,
) -> (Present, LayerView<F>) {
    let stride = min_int(4 * width, usize::MAX as int);
    let rects = dirty_rects(pixels, stride, width as int, height as int, dirty);
    let full = if s.needs_full(width, height) {
        Some(pixels.take(frame_len(width as int, height as int)))
    } else {
        None
    };
    if rects.len() == 0 && full is None {
        (Present::Skipped, s)
    } else {
        (Present::Committed, s.with_shm(rects, full, width, height))
    }
}

/// What a software frame is answered, and the mailbox it leaves. A frame whose
/// bytes cannot be counted, or of which some are missing, changes nothing.
pub open spec fn software_taken<F>(
    kind: Kind,
    gpu_failed: bool,
    before: LayerView<F>,
    pixels: Seq<u8>,
    width: i32,
    height: i32,
    dirty: Seq<JfnRect>,
) -> (Result<Present, PresentError>, LayerView<F>) {
    let need = frame_len(width as int, height as int);
    if width <= 0 || height <= 0 || need > usize::MAX {
        (Err(PresentError::BadDimensions(width, height)), before)
    } else if pixels.len() < need {
        (
            Err(PresentError::ShortBuffer { have: pixels.len() as usize, need: need as usize }),
            before,
        )
    } else if kind == Kind::Gpu && !gpu_failed {
        let frame = GpuView {
            pixels: pixels.take(need),
            dirty,
            width: width as u32,
            height: height as u32,
            stride: wire_stride(width),
        };
        (Ok(Present::Committed), LayerView { pending: Some(PendingView::Gpu(frame)), ..before })
    } else {
        let next = shm_enqueued(before, pixels, width, height, dirty);
        (Ok(next.0), next.1)
    }
}

impl<F> LayerActor<F> {
    /// A layer on a GPU painter, or on shared memory.
    pub fn new(kind: Kind, viewport_state: ViewportState, visible: bool) -> (a: Self)
        ensures
            a.kind == kind,
            !a.gpu_failed,
            a.state@ == (LayerView::<F> {
                pending: None,
                shadow: ShadowState::Stale,
                viewport: viewport_state,
                visible,
                hide_pending: false,
                viewport_dirty: false,
                shutdown: false,
            }),
    {
        LayerActor { kind, state: LayerState::new(viewport_state, visible), gpu_failed: false }
    }

    /// An extent without physical pixels is no extent; it changes nothing.
    pub fn resize(&mut self, lw: i32, lh: i32, pw: i32, ph: i32)
        ensures
            final(self).kind == old(self).kind,
            final(self).gpu_failed == old(self).gpu_failed,
            final(self).state@ == (if pw <= 0 || ph <= 0 {
                old(self).state@
            } else {
                old(self).state@.resized(ViewportState { lw, lh, pw, ph })
            }),
    {
        if pw <= 0 || ph <= 0 {
            return ;
        }
        self.state.resize(ViewportState { lw, lh, pw, ph });
    }

    pub fn set_visible(&mut self, visible: bool)
        ensures
            final(self).kind == old(self).kind,
            final(self).gpu_failed == old(self).gpu_failed,
            final(self).state@ == old(self).state@.with_visible(visible),
    {
        self.state.set_visible(visible);
    }

    pub fn request_placeholder(&mut self, r: u8, g: u8, b: u8)
        ensures
            final(self).kind == old(self).kind,
            final(self).gpu_failed == old(self).gpu_failed,
            final(self).state@ == old(self).state@.with_placeholder(r, g, b),
    {
        self.state.request_placeholder(r, g, b);
    }

    pub fn present_dmabuf(&mut self, frame: SharedTexture<F>) -> (r: Result<Present, PresentError>)
        ensures
            final(self).kind == old(self).kind,
            final(self).gpu_failed == old(self).gpu_failed,
            ({
                let bad = frame.coded.w <= 0 || frame.coded.h <= 0;
                &&& bad ==> r == Err::<Present, PresentError>(
                    PresentError::BadDimensions(frame.coded.w, frame.coded.h),
                ) && final(self).state@ == old(self).state@
                &&& !bad ==> r == Ok::<Present, PresentError>(Present::Committed)
                    && final(self).state@ == old(self).state@.with_dmabuf(frame)
            }),
    {
        match validate_present_dims(frame.coded.w, frame.coded.h) {
            Ok(_) => {},
            Err(e) => return Err(e),
        }
        self.state.present_dmabuf(frame);
        Ok(Present::Committed)
    }

    /// Takes a frame of `width` by `height` pixels of four bytes each.
    pub fn present_software(
        &mut self,
        pixels: &[u8],
        width: i32,
        height: i32,
        dirty: &[JfnRect],
    ) -> (r: Result<Present, PresentError>)
        ensures
            final(self).kind == old(self).kind,
            final(self).gpu_failed == old(self).gpu_failed,
            (r, final(self).state@) == software_taken(
                old(self).kind,
                old(self).gpu_failed,
                old(self).state@,
                pixels@,
                width,
                height,
                dirty@,
            ),
    {
        match validate_present_dims(width, height) {
            Ok(_) => {},
            Err(e) => return Err(e),
        }
        let len: usize = match checked_frame_len(width, height) {
            Some(n) => n,
            None => return Err(PresentError::BadDimensions(width, height)),
        };
        if pixels.len() < len {
            return Err(PresentError::ShortBuffer { have: pixels.len(), need: len });
        }
        match route_software(self.kind, self.gpu_failed) {
            Route::Gpu => self.enqueue_gpu(pixels, len, width, height, dirty),
            Route::Shm => self.enqueue_shm(pixels, len, width, height, dirty),
        }
    }

    fn enqueue_gpu(
        &mut self,
        pixels: &[u8],
        len: usize,
        width: i32,
        height: i32,
        dirty: &[JfnRect],
    ) -> (r: Result<Present, PresentError>)
        requires
            width > 0,
            height > 0,
            len <= pixels@.len(),
        ensures
            final(self).kind == old(self).kind,
            final(self).gpu_failed == old(self).gpu_failed,
            r == Ok::<Present, PresentError>(Present::Committed),
            final(self).state@ == (LayerView {
                pending: Some(
                    PendingView::Gpu(GpuView {
                        pixels: pixels@.take(len as int),
                        dirty: dirty@,
                        width: width as u32,
                        height: height as u32,
                        stride: wire_stride(width),
                    }),
                ),
                ..old(self).state@
            }),
    {
        let copied = vstd::slice::slice_to_vec(vstd::slice::slice_subrange(pixels, 0, len));
        assert(pixels@.subrange(0, len as int) =~= pixels@.take(len as int));
        let payload = GpuPayload {
            pixels: copied,
            dirty: vstd::slice::slice_to_vec(dirty),
            width: width as u32,
            height: height as u32,
            stride: stride_of(width),
        };
        self.state.enqueue_gpu(payload);
        Ok(Present::Committed)
    }

    fn enqueue_shm(
        &mut self,
        pixels: &[u8],
        len: usize,
        width: i32,
        height: i32,
        dirty: &[JfnRect],
    ) -> (r: Result<Present, PresentError>)
        requires
            width > 0,
            height > 0,
            len == frame_len(width as int, height as int),
            len <= pixels@.len(),
        ensures
            final(self).kind == old(self).kind,
            final(self).gpu_failed == old(self).gpu_failed,
            ({
                let next = shm_enqueued(old(self).state@, pixels@, width, height, dirty@);
                &&& r == Ok::<Present, PresentError>(next.0)
                &&& final(self).state@ == next.1
            }),
    {
        let stride: usize = match (width as usize).checked_mul(4) {
            Some(v) => v,
            None => usize::MAX,
        };
        let mut rects: Vec<ShmRect> = Vec::new();
        let mut i: usize = 0;
        proof {
            assert(dirty@.take(0) =~= Seq::empty());
            assert(rects_view(rects@) =~= Seq::empty());
        }
        while i < dirty.len()
            invariant
                i <= dirty@.len(),
                rects_view(rects@) == dirty_rects(
                    pixels@,
                    stride as int,
                    width as int,
                    height as int,
                    dirty@.take(i as int),
                ),
            decreases dirty@.len() - i,
        {
            let ghost before = rects@;
            assert(dirty@.take(i + 1).drop_last() =~= dirty@.take(i as int));
            match copy_dirty_rect(pixels, stride, width, height, &dirty[i]) {
                Some(rect) => {
                    rects.push(rect);
                    assert(rects_view(rects@) =~= rects_view(before).push(rect@));
                },
                None => {},
            }
            i += 1;
        }
        assert(dirty@.take(dirty@.len() as int) =~= dirty@);
        let full_pixels: Option<Vec<u8>> = if self.state.needs_full_copy(width, height) {
            assert(pixels@.subrange(0, len as int) =~= pixels@.take(len as int));
            Some(vstd::slice::slice_to_vec(vstd::slice::slice_subrange(pixels, 0, len)))
        } else {
            None
        };
        if rects.is_empty() && full_pixels.is_none() {
            return Ok(Present::Skipped);
        }
        self.state.store_shm(rects, full_pixels, width, height);
        Ok(Present::Committed)
    }

    /// Ends the layer: the worker takes nothing more.
    pub fn shutdown(&mut self)
        ensures
            final(self).kind == old(self).kind,
            final(self).gpu_failed == old(self).gpu_failed,
            final(self).state@ == (LayerView { shutdown: true, pending: None, ..old(self).state@ }),
    {
        self.state.shutdown = true;
        self.state.pending = None;
    }
}

/// Bytes per row, in the 32 bits a painter's frame has for it.
pub open spec fn wire_stride(width: i32) -> u32 {
    (min_int(4 * width, usize::MAX as int) % 0x1_0000_0000) as u32
}

fn stride_of(width: i32) -> (r: u32)
    requires
        width > 0,
    ensures
        r == wire_stride(width),
{
    let stride: usize = match (width as usize).checked_mul(4) {
        Some(v) => v,
        None => usize::MAX,
    };
    ((stride as u64) % 0x1_0000_0000) as u32
}

} // verus!
