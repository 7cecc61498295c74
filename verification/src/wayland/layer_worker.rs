//! The worker side of a layer: what one wake-up does, which buffer a frame is
//! shown with, and what a failure changes.

use vstd::prelude::*;

use crate::abi::max_i32;
use crate::abi::max_int;
use crate::abi::min_i32;
use crate::abi::min_int;
use crate::abi::FrameSize;
use crate::wayland::layer::FrameCommit;
use crate::wayland::layer::Present;
use crate::wayland::layer::PresentError;
use crate::wayland::layer::SharedTexture;
use crate::wayland::layer::ViewportState;
use crate::wayland::layer_actor::GpuPayload;
use crate::wayland::layer_actor::LayerState;
use crate::wayland::layer_actor::LayerView;
use crate::wayland::layer_actor::PendingFrame;
use crate::wayland::shm_shadow::compose_shm_shadow;
use crate::wayland::shm_shadow::frame_len;
use crate::wayland::shm_shadow::full_view;
use crate::wayland::shm_shadow::patched_picture;
use crate::wayland::shm_shadow::picture_holdable;
use crate::wayland::shm_shadow::rects_view;
use crate::wayland::shm_shadow::shadow_base;
use crate::wayland::shm_shadow::with_full;
use crate::wayland::shm_shadow::ShmPayload;
use crate::wayland::shm_shadow::ShmShadow;

verus! {

pub const DMABUF_POOL_CAP: usize = 16;

/// The primary frame op for one worker iteration.
#[derive(Debug, PartialEq)]
pub enum Action<F> {
    Hide,
    Present(F),
    ReapplyViewport,
    Nop,
}

/// Whether the layer shows real content after an iteration: a hide clears that,
/// a committed frame other than a placeholder sets it.
pub open spec fn content_after<F>(
    prev: bool,
    action: Action<F>,
    committed: bool,
    is_placeholder: bool,
) -> bool {
    match action {
        Action::Hide => false,
        Action::Present(_) => prev || (committed && !is_placeholder),
        Action::ReapplyViewport => prev,
        Action::Nop => prev,
    }
}

pub fn next_content<F>(prev: bool, action: &Action<F>, committed: bool, is_placeholder: bool) -> (r:
    bool)
    ensures
        r == content_after(prev, *action, committed, is_placeholder),
{
    match action {
        Action::Hide => false,
        Action::Present(_) if committed && !is_placeholder => true,
        _ => prev,
    }
}

/// The frame op for one worker iteration, from one mailbox snapshot.
pub open spec fn decided<F>(
    pending: Option<F>,
    pending_is_placeholder: bool,
    visible: bool,
    has_content: bool,
    viewport_dirty: bool,
) -> Action<F> {
    if !visible {
        Action::Hide
    } else {
        match pending {
            Some(frame) => if pending_is_placeholder && has_content {
                Action::Nop
            } else {
                Action::Present(frame)
            },
            None => if viewport_dirty {
                Action::ReapplyViewport
            } else {
                Action::Nop
            },
        }
    }
}

/// The frame op for one worker iteration, from one mailbox snapshot. Driven by
/// the final desired `visible` state: a frame arriving in the same wake as a
/// coalesced hide and show is presented, not dropped.
pub fn decide<F>(
    pending: Option<F>,
    pending_is_placeholder: bool,
    visible: bool,
    has_content: bool,
    viewport_dirty: bool,
) -> (r: Action<F>)
    ensures
        r == decided(pending, pending_is_placeholder, visible, has_content, viewport_dirty),
{
    if !visible {
        Action::Hide
    } else if let Some(frame) = pending {
        if pending_is_placeholder && has_content {
            Action::Nop
        } else {
            Action::Present(frame)
        }
    } else if viewport_dirty {
        Action::ReapplyViewport
    } else {
        Action::Nop
    }
}

/// What a layer is painted with; `P` is the GPU painter.
pub enum Backend<P> {
    Gpu { painter: Option<P> },
    Shm { shadow: ShmShadow },
}

/// A hidden shared-memory layer is detached. A GPU layer is left alone: its
/// swapchain owns its buffers, and a foreign commit would fight it.
pub fn hide_detaches<P>(backend: &Backend<P>) -> (r: bool)
    ensures
        r == (backend is Shm),
{
    matches!(backend, Backend::Shm { .. })
}

/// Only a GPU failure degrades. Any other error means the surface is done:
/// what it could absorb came back as a skip.
pub fn is_degrading_error(err: &PresentError) -> (r: bool)
    ensures
        r == (*err == PresentError::Gpu),
{
    matches!(err, PresentError::Gpu)
}

/// Falls back to shared memory for good, with an empty picture. Returns the
/// painter that is no longer needed.
pub fn degrade<P>(backend: &mut Backend<P>, gpu_failed: &mut bool) -> (old_painter: Option<P>)
    ensures
        *final(gpu_failed),
        match *final(backend) {
            Backend::Shm { shadow } => shadow.pixels@.len() == 0 && shadow.size == (0i32, 0i32),
            Backend::Gpu { .. } => false,
        },
        old_painter == match *old(backend) {
            Backend::Gpu { painter } => painter,
            Backend::Shm { .. } => None,
        },
{
    let painter: Option<P> = match backend {
        Backend::Gpu { painter } => painter.take(),
        Backend::Shm { .. } => None,
    };
    *backend = Backend::Shm { shadow: ShmShadow::default() };
    *gpu_failed = true;
    painter
}

/// One consistent reading of the mailbox.
pub struct Snapshot<F> {
    pub pending: Option<PendingFrame<F>>,
    pub pending_is_placeholder: bool,
    pub viewport: ViewportState,
    pub visible: bool,
    pub viewport_dirty: bool,
    pub shutdown: bool,
}

/// Whether there is anything for the worker to do.
pub fn wants_worker<F>(s: &LayerState<F>) -> (r: bool)
    ensures
        r == (s.pending is Some || s.shutdown || s.hide_pending || s.viewport_dirty),
{
    s.pending.is_some() || s.shutdown || s.hide_pending || s.viewport_dirty
}

/// Empties the mailbox into a snapshot; after it nothing is left to do.
pub fn take_snapshot<F>(s: &mut LayerState<F>) -> (r: Snapshot<F>)
    ensures
        r.pending == old(s).pending,
        r.pending_is_placeholder == (old(s).pending matches Some(
            PendingFrame::Placeholder(_, _, _),
        )),
        r.viewport == old(s).viewport,
        r.visible == old(s).visible,
        r.viewport_dirty == old(s).viewport_dirty,
        r.shutdown == old(s).shutdown,
        final(s)@ == (LayerView {
            pending: None,
            hide_pending: false,
            viewport_dirty: false,
            ..old(s)@
        }),
{
    s.hide_pending = false;
    let viewport_dirty = s.viewport_dirty;
    s.viewport_dirty = false;
    let pending = s.pending.take();
    let pending_is_placeholder = matches!(pending, Some(PendingFrame::Placeholder(_, _, _)));
    Snapshot {
        pending,
        pending_is_placeholder,
        viewport: s.viewport,
        visible: s.visible,
        viewport_dirty,
        shutdown: s.shutdown,
    }
}

/// One iteration of the worker: what to do, and what its end depends on.
pub struct Iteration<F> {
    pub action: Action<PendingFrame<F>>,
    pub is_placeholder: bool,
    pub viewport: ViewportState,
    pub visible: bool,
    pub viewport_dirty: bool,
    /// There is a painter that has to be told it is hidden.
    pub hide_painter: bool,
}

/// How an iteration ends.
pub struct Conclusion<P> {
    /// The viewport has to be set and committed on its own: the frame that
    /// should have carried it was not committed.
    pub reapply_viewport: bool,
    /// Something was committed: flush, and ask the root window to present.
    pub flush: bool,
    /// The first failure of a failing streak, to be logged.
    pub log_failure: bool,
    /// A failure that ended GPU painting.
    pub degraded: bool,
    /// The painter that is no longer needed.
    pub retired: Option<P>,
}

/// What the picture of a GPU layer is painted with.
#[derive(Clone, Copy, PartialEq, Eq, Structural, Debug)]
pub struct GpuPaint {
    /// No painter yet: one has to be made for a frame of `frame`'s size.
    pub create: bool,
    pub frame: FrameSize,
    /// The size the painter's surface must have.
    pub surface: FrameSize,
    /// The source rectangle, set with the frame and not before it: a dropped
    /// frame must not leave a source pending ahead of the next buffer.
    pub src_w: i32,
    pub src_h: i32,
    pub dst_w: i32,
    pub dst_h: i32,
}

/// What is done to show a frame.
#[derive(Clone, Copy, Debug)]
pub enum FrameTask {
    /// Nothing: the layer cannot show frames of this kind now.
    Skip,
    Paint(GpuPaint),
    /// Draw the picture into a buffer and attach it.
    Draw(FrameCommit),
    /// Lease a buffer for the shared texture and attach it.
    Lease(FrameCommit),
    /// Fill a buffer with one pixel and attach it.
    Fill([u8; 4], FrameCommit),
}

/// What a pooled buffer was made from.
#[derive(Clone, Copy, PartialEq, Eq, Debug)]
pub struct DmabufKey {
    /// Device and inode of the buffer.
    pub id: (u64, u64),
    pub w: i32,
    pub h: i32,
    pub stride: u32,
    pub modifier: u64,
}

impl DmabufKey {
    fn same(&self, other: &DmabufKey) -> (r: bool)
        ensures
            r == (*self == *other),
    {
        self.same_id(other) && self.w == other.w && self.h == other.h && self.stride
            == other.stride && self.modifier == other.modifier
    }

    fn same_id(&self, other: &DmabufKey) -> (r: bool)
        ensures
            r == (self.id == other.id),
    {
        self.id.0 == other.id.0 && self.id.1 == other.id.1
    }
}

/// A buffer kept for the next frame from the same memory.
pub struct DmabufBuf<B> {
    pub key: DmabufKey,
    pub buf: B,
}

/// Index of the first buffer made from exactly this memory.
pub open spec fn first_hit<B>(pool: Seq<DmabufBuf<B>>, key: DmabufKey) -> Option<int>
    decreases pool.len(),
{
    if pool.len() == 0 {
        None
    } else {
        match first_hit(pool.drop_last(), key) {
            Some(i) => Some(i),
            None => if pool.last().key == key {
                Some(pool.len() - 1)
            } else {
                None
            },
        }
    }
}

/// The pool without its first buffer of this identity.
pub open spec fn without_first_id<B>(pool: Seq<DmabufBuf<B>>, id: (u64, u64)) -> Seq<DmabufBuf<B>>
    decreases pool.len(),
{
    if pool.len() == 0 {
        pool
    } else if pool[0].key.id == id {
        pool.drop_first()
    } else {
        seq![pool[0]] + without_first_id(pool.drop_first(), id)
    }
}

/// The pool and whether it serves a frame from this memory. A buffer the
/// compositor still uses cannot be attached again and leaves the pool, and so
/// does one of the same identity but another shape.
pub open spec fn leased<B>(pool: Seq<DmabufBuf<B>>, key: DmabufKey, idle: bool) -> (
    Seq<DmabufBuf<B>>,
    bool,
) {
    match first_hit(pool, key) {
        Some(i) => if idle {
            (pool.remove(i).insert(0, pool[i]), true)
        } else {
            (without_first_id(pool.remove(i), key.id), false)
        },
        None => (without_first_id(pool, key.id), false),
    }
}

/// How the buffer of a frame is come by.
#[derive(Clone, Copy, PartialEq, Eq, Debug)]
pub enum LeaseRequest {
    /// It cannot be: no dmabuf support, or a frame without planes.
    Unavailable,
    /// Made for this frame alone; the memory has no identity.
    OneShot { stride: u32 },
    /// From the pool, or made and put there.
    Pooled(DmabufKey),
}

/// How the buffer of `frame` is come by, `id` being the identity of its memory.
pub fn lease_request<F>(supported: bool, frame: &SharedTexture<F>, id: Option<(u64, u64)>) -> (r:
    LeaseRequest)
    ensures
        r == (if !supported || frame.planes@.len() == 0 {
            LeaseRequest::Unavailable
        } else {
            match id {
                None => LeaseRequest::OneShot { stride: frame.planes@[0].stride },
                Some(id) => LeaseRequest::Pooled(
                    DmabufKey {
                        id,
                        w: frame.coded.w,
                        h: frame.coded.h,
                        stride: frame.planes@[0].stride,
                        modifier: frame.modifier,
                    },
                ),
            }
        }),
{
    if !supported || frame.planes.len() == 0 {
        return LeaseRequest::Unavailable;
    }
    let stride: u32 = frame.planes[0].stride;
    match id {
        None => LeaseRequest::OneShot { stride },
        Some(id) => LeaseRequest::Pooled(
            DmabufKey { id, w: frame.coded.w, h: frame.coded.h, stride, modifier: frame.modifier },
        ),
    }
}

/// The buffer a shared texture is shown with.
pub enum DmabufLease<B> {
    /// The one at the front of the pool.
    Pooled,
    /// One made for this frame alone.
    OneShot(B),
}

/// How painting a frame on the GPU went.
#[derive(Clone, Copy, PartialEq, Eq, Structural, Debug)]
pub enum Painted {
    Yes,
    Skipped,
    Failed,
}

/// A frame the painter skipped is not committed, or it would be lost from the
/// mailbox.
pub fn gpu_presented(painted: Painted) -> (r: Result<Present, PresentError>)
    ensures
        r == match painted {
            Painted::Yes => Ok::<Present, PresentError>(Present::Committed),
            Painted::Skipped => Ok::<Present, PresentError>(Present::Skipped),
            Painted::Failed => Err::<Present, PresentError>(PresentError::Gpu),
        },
{
    match painted {
        Painted::Yes => Ok(Present::Committed),
        Painted::Skipped => Ok(Present::Skipped),
        Painted::Failed => Err(PresentError::Gpu),
    }
}

/// The layer's worker; `P` is its GPU painter, `B` a compositor buffer.
pub struct Runner<P, B> {
    pub backend: Backend<P>,
    /// A GPU to make painters with.
    pub has_gpu: bool,
    pub gpu_failed: bool,
    /// Gates failure logging to the first failure of a failing streak.
    pub present_failing: bool,
    pub dmabuf_pool: Vec<DmabufBuf<B>>,
    /// The attached buffer, where the pool does not hold it: it must outlive
    /// its use by the compositor.
    pub current: Option<B>,
    pub has_content: bool,
}

/// The pool never grows past its cap and holds each memory once.
pub open spec fn pool_wf<B>(pool: Seq<DmabufBuf<B>>) -> bool {
    &&& pool.len() <= DMABUF_POOL_CAP
    &&& distinct_ids(pool)
}

pub open spec fn distinct_ids<B>(pool: Seq<DmabufBuf<B>>) -> bool {
    forall|i: int, j: int|
        0 <= i < j < pool.len() ==> #[trigger] pool[i].key.id != #[trigger] pool[j].key.id
}

proof fn first_hit_is_first<B>(pool: Seq<DmabufBuf<B>>, key: DmabufKey)
    ensures
        match first_hit(pool, key) {
            Some(i) => 0 <= i < pool.len() && pool[i].key == key && forall|j: int|
                0 <= j < i ==> (#[trigger] pool[j]).key != key,
            None => forall|j: int| 0 <= j < pool.len() ==> (#[trigger] pool[j]).key != key,
        },
    decreases pool.len(),
{
    if pool.len() > 0 {
        let front = pool.drop_last();
        first_hit_is_first(front, key);
        assert forall|j: int| 0 <= j < front.len() implies front[j] == #[trigger] pool[j] by {}
        assert(first_hit(front, key) is None ==> forall|j: int|
            0 <= j < front.len() ==> (#[trigger] pool[j]).key == front[j].key);
    }
}

/// Which buffer goes: the first of that identity.
proof fn without_first_id_removes<B>(pool: Seq<DmabufBuf<B>>, id: (u64, u64), i: int)
    requires
        0 <= i <= pool.len(),
        forall|j: int| 0 <= j < i ==> (#[trigger] pool[j]).key.id != id,
        i < pool.len() ==> pool[i].key.id == id,
    ensures
        without_first_id(pool, id) == (if i < pool.len() {
            pool.remove(i)
        } else {
            pool
        }),
    decreases pool.len(),
{
    if pool.len() == 0 {
    } else if i == 0 {
        assert(pool.remove(0) =~= pool.drop_first());
    } else {
        let rest = pool.drop_first();
        assert(pool[0].key.id != id);
        assert forall|j: int| 0 <= j < i - 1 implies (#[trigger] rest[j]).key.id != id by {
            assert(rest[j] == pool[j + 1]);
        }
        without_first_id_removes(rest, id, i - 1);
        if i < pool.len() {
            assert(pool.remove(i) =~= seq![pool[0]] + rest.remove(i - 1));
        } else {
            assert(pool =~= seq![pool[0]] + rest);
        }
    }
}

impl<P, B> Runner<P, B> {
    /// A worker with a GPU to paint with, or one on shared memory.
    pub fn new(has_gpu: bool) -> (r: Self)
        ensures
            r.has_gpu == has_gpu,
            !r.gpu_failed && !r.present_failing && !r.has_content,
            r.dmabuf_pool@.len() == 0,
            r.current is None,
            match r.backend {
                Backend::Gpu { painter } => has_gpu && painter is None,
                Backend::Shm { shadow } => !has_gpu && shadow.pixels@.len() == 0 && shadow.size == (
                    0i32,
                    0i32,
                ),
            },
    {
        Runner {
            backend: if has_gpu {
                Backend::Gpu { painter: None }
            } else {
                Backend::Shm { shadow: ShmShadow::default() }
            },
            has_gpu,
            gpu_failed: false,
            present_failing: false,
            dmabuf_pool: Vec::new(),
            current: None,
            has_content: false,
        }
    }

    /// What to do for a snapshot; `None` is the end.
    pub fn begin<F>(&self, snap: Snapshot<F>) -> (r: Option<Iteration<F>>)
        ensures
            snap.shutdown <==> r is None,
            r matches Some(it) ==> {
                &&& it.action == decided(
                    snap.pending,
                    snap.pending_is_placeholder,
                    snap.visible,
                    self.has_content,
                    snap.viewport_dirty,
                )
                &&& it.is_placeholder == snap.pending_is_placeholder
                &&& it.viewport == snap.viewport
                &&& it.visible == snap.visible
                &&& it.viewport_dirty == snap.viewport_dirty
                &&& it.hide_painter == (it.action is Hide && (self.backend matches Backend::Gpu {
                    painter: Some(_),
                }))
            },
    {
        if snap.shutdown {
            return None;
        }
        let is_placeholder = snap.pending_is_placeholder;
        let has_painter = matches!(&self.backend, Backend::Gpu { painter: Some(_) });
        Some(
            Iteration {
                action: decide(
                    snap.pending,
                    is_placeholder,
                    snap.visible,
                    self.has_content,
                    snap.viewport_dirty,
                ),
                hide_painter: !snap.visible && has_painter,
                is_placeholder,
                viewport: snap.viewport,
                visible: snap.visible,
                viewport_dirty: snap.viewport_dirty,
            },
        )
    }

    /// Whether an iteration's own op commits the layer surface, `presented`
    /// being how its frame went.
    pub open spec fn commits<F>(
        &self,
        it: Iteration<F>,
        presented: Result<Present, PresentError>,
    ) -> bool {
        match it.action {
            Action::Hide => self.backend is Shm,
            Action::Present(_) => presented == Ok::<Present, PresentError>(Present::Committed),
            Action::ReapplyViewport => true,
            Action::Nop => false,
        }
    }

    /// Whether an iteration leaves the layer surface committed, by its own op or
    /// by the viewport set after it. The visibility gate keeps that commit off a
    /// hidden GPU surface, whose buffers its swapchain owns.
    pub open spec fn flushes<F>(
        &self,
        it: Iteration<F>,
        presented: Result<Present, PresentError>,
    ) -> bool {
        self.commits(it, presented) || it.visible && it.viewport_dirty
    }

    /// The error an iteration met.
    pub open spec fn failure<F>(
        it: Iteration<F>,
        presented: Result<Present, PresentError>,
    ) -> Option<PresentError> {
        match (it.action, presented) {
            (Action::Present(_), Err(e)) => Some(e),
            _ => None,
        }
    }

    /// Ends an iteration; `presented` is how its frame went, and counts only
    /// where it had one to present.
    pub fn conclude<F>(
        &mut self,
        it: &Iteration<F>,
        presented: Result<Present, PresentError>,
    ) -> (r: Conclusion<P>)
        ensures
            final(self).has_gpu == old(self).has_gpu,
            final(self).dmabuf_pool@ == old(self).dmabuf_pool@,
            final(self).current == (if it.action is Hide && old(self).backend is Shm {
                None
            } else {
                old(self).current
            }),
            ({
                let commits = old(self).commits(*it, presented);
                let failure = Self::failure(*it, presented);
                let degrades = failure == Some(PresentError::Gpu);
                &&& final(self).has_content == content_after(
                    old(self).has_content,
                    it.action,
                    presented == Ok::<Present, PresentError>(Present::Committed),
                    it.is_placeholder,
                )
                &&& r.reapply_viewport == (it.visible && !commits && it.viewport_dirty)
                &&& r.flush == old(self).flushes(*it, presented)
                &&& r.degraded == degrades
                &&& r.log_failure == (failure is Some && !old(self).present_failing)
                &&& final(self).present_failing == (failure is Some || (
                old(self).present_failing && !(it.action is Present && commits)))
                &&& final(self).gpu_failed == (old(self).gpu_failed || degrades)
                &&& degrades ==> match final(self).backend {
                    Backend::Shm { shadow } => shadow.pixels@.len() == 0 && shadow.size == (
                        0i32,
                        0i32,
                    ),
                    Backend::Gpu { .. } => false,
                }
                &&& !degrades ==> final(self).backend == old(self).backend
                &&& r.retired == match (degrades, old(self).backend) {
                    (true, Backend::Gpu { painter }) => painter,
                    _ => None,
                }
            }),
    {
        let mut committed = false;
        let mut log_failure = false;
        let mut degraded = false;
        let mut retired: Option<P> = None;
        let layer_committed = match &it.action {
            Action::Hide => {
                let detached = hide_detaches(&self.backend);
                if detached {
                    self.current = None;
                }
                detached
            },
            Action::Present(_) => match presented {
                Ok(Present::Committed) => {
                    self.present_failing = false;
                    committed = true;
                    true
                },
                Ok(Present::Skipped) => false,
                Err(err) => {
                    degraded = is_degrading_error(&err);
                    if degraded {
                        retired = degrade(&mut self.backend, &mut self.gpu_failed);
                    }
                    if !self.present_failing {
                        self.present_failing = true;
                        log_failure = true;
                    }
                    false
                },
            },
            Action::ReapplyViewport => true,
            Action::Nop => false,
        };
        self.has_content = next_content(
            self.has_content,
            &it.action,
            committed,
            it.is_placeholder,
        );
        let reapply_viewport = it.visible && !layer_committed && it.viewport_dirty;
        Conclusion {
            reapply_viewport,
            flush: layer_committed || reapply_viewport,
            log_failure,
            degraded,
            retired,
        }
    }

    /// The one pixel of a placeholder, in memory order, and how it is shown.
    pub fn present_placeholder(r: u8, g: u8, b: u8, vps: ViewportState) -> (p: (
        [u8; 4],
        FrameCommit,
    ))
        ensures
            p.0@ == seq![b, g, r, 0xFFu8],
            p.1 == (FrameCommit {
                buf_w: 1,
                buf_h: 1,
                src_w: 1,
                src_h: 1,
                dst_w: vps.lw,
                dst_h: vps.lh,
            }),
    {
        let pixel: [u8; 4] = [b, g, r, 0xFF];
        assert(pixel@ =~= seq![b, g, r, 0xFFu8]);
        (
            pixel,
            FrameCommit { buf_w: 1, buf_h: 1, src_w: 1, src_h: 1, dst_w: vps.lw, dst_h: vps.lh },
        )
    }

    /// How a frame is painted on the GPU.
    pub open spec fn gpu_plan(&self, vps: ViewportState, p: GpuPayload, has_target: bool) -> Option<
        GpuPaint,
    > {
        match self.backend {
            Backend::Gpu { painter } => if self.has_gpu && (painter is Some || has_target) {
                Some(
                    GpuPaint {
                        create: painter is None,
                        frame: FrameSize { w: p.width as i32, h: p.height as i32 },
                        surface: FrameSize {
                            w: max_int(vps.pw as int, 1) as i32,
                            h: max_int(vps.ph as int, 1) as i32,
                        },
                        src_w: min_int(p.width as int, vps.pw as int) as i32,
                        src_h: min_int(p.height as int, vps.ph as int) as i32,
                        dst_w: vps.lw,
                        dst_h: vps.lh,
                    },
                )
            } else {
                None
            },
            Backend::Shm { .. } => None,
        }
    }

    /// How a frame is painted on the GPU; `None` skips it. `has_target` says
    /// whether the surface can have a painter made for it. The source is cut to
    /// what both the frame and the surface hold.
    pub fn present_gpu(&self, vps: ViewportState, p: &GpuPayload, has_target: bool) -> (r: Option<
        GpuPaint,
    >)
        requires
            p.width <= i32::MAX,
            p.height <= i32::MAX,
        ensures
            r == self.gpu_plan(vps, *p, has_target),
    {
        match &self.backend {
            Backend::Gpu { painter } => {
                if !self.has_gpu || (painter.is_none() && !has_target) {
                    return None;
                }
                Some(
                    GpuPaint {
                        create: painter.is_none(),
                        frame: FrameSize { w: p.width as i32, h: p.height as i32 },
                        surface: FrameSize { w: max_i32(vps.pw, 1), h: max_i32(vps.ph, 1) },
                        src_w: min_i32(p.width as i32, vps.pw),
                        src_h: min_i32(p.height as i32, vps.ph),
                        dst_w: vps.lw,
                        dst_h: vps.lh,
                    },
                )
            },
            Backend::Shm { .. } => None,
        }
    }

    /// What a shared-memory frame does to the picture, and how it is shown.
    pub open spec fn shm_step(
        before: Self,
        after: Self,
        vps: ViewportState,
        p: ShmPayload,
        r: Result<Option<FrameCommit>, PresentError>,
    ) -> bool {
        match before.backend {
            Backend::Gpu { .. } => {
                &&& r == Ok::<Option<FrameCommit>, PresentError>(None)
                &&& after == before
            },
            Backend::Shm { shadow } => if shadow.size != (p.width, p.height) && frame_len(
                p.width as int,
                p.height as int,
            ) > usize::MAX {
                &&& r == Err::<Option<FrameCommit>, PresentError>(
                    PresentError::BadDimensions(p.width, p.height),
                )
                &&& after == before
            } else {
                &&& r == Ok::<Option<FrameCommit>, PresentError>(
                    Some(
                        FrameCommit {
                            buf_w: p.width,
                            buf_h: p.height,
                            src_w: min_int(p.width as int, vps.pw as int) as i32,
                            src_h: min_int(p.height as int, vps.ph as int) as i32,
                            dst_w: vps.lw,
                            dst_h: vps.lh,
                        },
                    ),
                )
                &&& after == (Runner {
                    backend: after.backend,
                    ..before
                })
                &&& after.backend matches Backend::Shm { shadow: drawn }
                &&& drawn.size == (p.width, p.height)
                &&& drawn.pixels@ == patched_picture(
                    with_full(
                        shadow_base(shadow.pixels@, shadow.size, p.width, p.height),
                        full_view(p.full_pixels),
                    ),
                    p.width as int,
                    rects_view(p.rects@),
                )
            },
        }
    }

    /// Brings the shared-memory picture up to date with a frame and says how it
    /// is shown; `None` skips the frame, on a layer that is not on shared
    /// memory.
    pub fn present_shm(&mut self, vps: ViewportState, p: &ShmPayload) -> (r: Result<
        Option<FrameCommit>,
        PresentError,
    >)
        requires
            old(self).backend matches Backend::Shm { shadow } ==> picture_holdable(
                shadow.size,
                p.width,
                p.height,
            ),
        ensures
            Self::shm_step(*old(self), *final(self), vps, *p, r),
    {
        let (width, height) = (p.width, p.height);
        match &mut self.backend {
            Backend::Gpu { .. } => Ok(None),
            Backend::Shm { shadow } => match compose_shm_shadow(shadow, p) {
                Ok(_) => Ok(
                    Some(
                        FrameCommit {
                            buf_w: width,
                            buf_h: height,
                            src_w: min_i32(width, vps.pw),
                            src_h: min_i32(height, vps.ph),
                            dst_w: vps.lw,
                            dst_h: vps.lh,
                        },
                    ),
                ),
                Err(e) => Err(e),
            },
        }
    }

    /// How a shared texture is shown: the whole buffer, cut to its visible part.
    pub fn present_dmabuf<F>(vps: ViewportState, frame: &SharedTexture<F>) -> (c: FrameCommit)
        ensures
            c == (FrameCommit {
                buf_w: frame.coded.w,
                buf_h: frame.coded.h,
                src_w: frame.visible.w,
                src_h: frame.visible.h,
                dst_w: vps.lw,
                dst_h: vps.lh,
            }),
    {
        FrameCommit {
            buf_w: frame.coded.w,
            buf_h: frame.coded.h,
            src_w: frame.visible.w,
            src_h: frame.visible.h,
            dst_w: vps.lw,
            dst_h: vps.lh,
        }
    }

    /// What a waiting frame may ask of the worker: that its extent can be handled.
    pub open spec fn presentable<F>(&self, frame: PendingFrame<F>) -> bool {
        match frame {
            PendingFrame::Gpu(p) => p.width <= i32::MAX && p.height <= i32::MAX,
            PendingFrame::Shm(p) => self.backend matches Backend::Shm { shadow }
                ==> picture_holdable(shadow.size, p.width, p.height),
            _ => true,
        }
    }

    /// What is done to show a waiting frame, by its kind.
    pub fn present<F>(&mut self, frame: &PendingFrame<F>, vps: ViewportState, has_target: bool) -> (r:
        Result<FrameTask, PresentError>)
        requires
            old(self).presentable(*frame),
        ensures
            match *frame {
                PendingFrame::Gpu(p) => {
                    &&& *final(self) == *old(self)
                    &&& r == Ok::<FrameTask, PresentError>(
                        match old(self).gpu_plan(vps, p, has_target) {
                            Some(plan) => FrameTask::Paint(plan),
                            None => FrameTask::Skip,
                        },
                    )
                },
                PendingFrame::Shm(p) => Self::shm_step(
                    *old(self),
                    *final(self),
                    vps,
                    p,
                    match r {
                        Ok(FrameTask::Draw(c)) => Ok(Some(c)),
                        Ok(_) => Ok(None),
                        Err(e) => Err(e),
                    },
                ) && (r matches Ok(task) ==> task is Draw || task is Skip),
                PendingFrame::Dmabuf(f) => {
                    &&& *final(self) == *old(self)
                    &&& r == Ok::<FrameTask, PresentError>(
                        FrameTask::Lease(
                            FrameCommit {
                                buf_w: f.coded.w,
                                buf_h: f.coded.h,
                                src_w: f.visible.w,
                                src_h: f.visible.h,
                                dst_w: vps.lw,
                                dst_h: vps.lh,
                            },
                        ),
                    )
                },
                PendingFrame::Placeholder(red, green, blue) => {
                    &&& *final(self) == *old(self)
                    &&& r matches Ok(FrameTask::Fill(pixel, commit))
                    &&& pixel@ == seq![blue, green, red, 0xFFu8]
                    &&& commit == (FrameCommit {
                        buf_w: 1,
                        buf_h: 1,
                        src_w: 1,
                        src_h: 1,
                        dst_w: vps.lw,
                        dst_h: vps.lh,
                    })
                },
            },
    {
        match frame {
            PendingFrame::Gpu(p) => Ok(
                match self.present_gpu(vps, p, has_target) {
                    Some(plan) => FrameTask::Paint(plan),
                    None => FrameTask::Skip,
                },
            ),
            PendingFrame::Shm(p) => match self.present_shm(vps, p) {
                Ok(Some(commit)) => Ok(FrameTask::Draw(commit)),
                Ok(None) => Ok(FrameTask::Skip),
                Err(e) => Err(e),
            },
            PendingFrame::Dmabuf(f) => Ok(FrameTask::Lease(Self::present_dmabuf(vps, f))),
            PendingFrame::Placeholder(red, green, blue) => {
                let (pixel, commit) = Self::present_placeholder(*red, *green, *blue, vps);
                Ok(FrameTask::Fill(pixel, commit))
            },
        }
    }

    /// A buffer was drawn and attached; without one the frame fails.
    pub fn attach_drawn(&mut self, drawn: Option<B>) -> (r: Result<Present, PresentError>)
        ensures
            match drawn {
                Some(buf) => {
                    &&& r == Ok::<Present, PresentError>(Present::Committed)
                    &&& *final(self) == (Runner { current: Some(buf), ..*old(self) })
                },
                None => {
                    &&& r == Err::<Present, PresentError>(PresentError::ShmAlloc)
                    &&& *final(self) == *old(self)
                },
            },
    {
        match drawn {
            Some(buf) => {
                self.current = Some(buf);
                Ok(Present::Committed)
            },
            None => Err(PresentError::ShmAlloc),
        }
    }

    /// A shared texture was attached: with the buffer at the front of the pool,
    /// which holds it, or with one made for this frame alone. Without a lease
    /// the frame fails.
    pub fn attach_leased(&mut self, lease: Option<DmabufLease<B>>) -> (r: Result<
        Present,
        PresentError,
    >)
        ensures
            match lease {
                Some(lease) => {
                    &&& r == Ok::<Present, PresentError>(Present::Committed)
                    &&& *final(self) == (Runner {
                        current: match lease {
                            DmabufLease::Pooled => None,
                            DmabufLease::OneShot(buf) => Some(buf),
                        },
                        ..*old(self)
                    })
                },
                None => {
                    &&& r == Err::<Present, PresentError>(PresentError::DmabufCreate)
                    &&& *final(self) == *old(self)
                },
            },
    {
        match lease {
            Some(DmabufLease::Pooled) => {
                self.current = None;
                Ok(Present::Committed)
            },
            Some(DmabufLease::OneShot(buf)) => {
                self.current = Some(buf);
                Ok(Present::Committed)
            },
            None => Err(PresentError::DmabufCreate),
        }
    }

    /// The worker ends: every buffer is let go, and the painter with it.
    pub fn shutdown(&mut self) -> (retired: Option<P>)
        ensures
            final(self).current is None,
            final(self).dmabuf_pool@.len() == 0,
            retired == match old(self).backend {
                Backend::Gpu { painter } => painter,
                Backend::Shm { .. } => None,
            },
            final(self).backend matches Backend::Gpu { painter } ==> painter is None,
    {
        self.current = None;
        self.dmabuf_pool.clear();
        match &mut self.backend {
            Backend::Gpu { painter } => painter.take(),
            Backend::Shm { .. } => None,
        }
    }

    /// Index of the first pooled buffer made from exactly this memory.
    pub fn pool_hit(&self, key: &DmabufKey) -> (r: Option<usize>)
        ensures
            match (r, first_hit(self.dmabuf_pool@, *key)) {
                (Some(i), Some(j)) => i == j && i < self.dmabuf_pool@.len(),
                (None, None) => true,
                _ => false,
            },
    {
        proof {
            first_hit_is_first(self.dmabuf_pool@, *key);
        }
        let mut i: usize = 0;
        while i < self.dmabuf_pool.len()
            invariant
                i <= self.dmabuf_pool@.len(),
                forall|j: int| 0 <= j < i ==> (#[trigger] self.dmabuf_pool@[j]).key != *key,
                first_hit(self.dmabuf_pool@, *key) matches Some(f) ==> 0 <= f
                    < self.dmabuf_pool@.len() && self.dmabuf_pool@[f].key == *key && forall|j: int|
                    0 <= j < f ==> (#[trigger] self.dmabuf_pool@[j]).key != *key,
                first_hit(self.dmabuf_pool@, *key) is None ==> forall|j: int|
                    0 <= j < self.dmabuf_pool@.len() ==> (#[trigger] self.dmabuf_pool@[j]).key
                        != *key,
            decreases self.dmabuf_pool@.len() - i,
        {
            if self.dmabuf_pool[i].key.same(key) {
                return Some(i);
            }
            i += 1;
        }
        None
    }

    /// Takes a buffer for a frame from this memory. `true`: the buffer at the
    /// front of the pool serves. `false`: one has to be made, and given to
    /// [`Runner::pool_insert`]. `idle` says whether the compositor is done with
    /// the buffer at [`Runner::pool_hit`].
    pub fn lease_dmabuf(&mut self, key: &DmabufKey, idle: bool) -> (pooled: bool)
        ensures
            final(self).dmabuf_pool@ == leased(old(self).dmabuf_pool@, *key, idle).0,
            pooled == leased(old(self).dmabuf_pool@, *key, idle).1,
            final(self).backend == old(self).backend,
            final(self).current == old(self).current,
            final(self).has_gpu == old(self).has_gpu,
            final(self).gpu_failed == old(self).gpu_failed,
            final(self).present_failing == old(self).present_failing,
            final(self).has_content == old(self).has_content,
    {
        if let Some(pos) = self.pool_hit(key) {
            let entry = self.dmabuf_pool.remove(pos);
            if idle {
                self.dmabuf_pool.insert(0, entry);
                return true;
            }
        }
        let ghost pool = self.dmabuf_pool@;
        let mut i: usize = 0;
        while i < self.dmabuf_pool.len()
            invariant_except_break
                self.dmabuf_pool@ == pool,
                i <= pool.len(),
                forall|j: int| 0 <= j < i ==> (#[trigger] pool[j]).key.id != key.id,
                i == pool.len() ==> pool == without_first_id(pool, key.id),
            invariant
                self.backend == old(self).backend,
                self.current == old(self).current,
                self.has_gpu == old(self).has_gpu,
                self.gpu_failed == old(self).gpu_failed,
                self.present_failing == old(self).present_failing,
                self.has_content == old(self).has_content,
            ensures
                self.dmabuf_pool@ == without_first_id(pool, key.id),
            decreases self.dmabuf_pool@.len() - i,
        {
            if self.dmabuf_pool[i].key.same_id(key) {
                proof {
                    without_first_id_removes(pool, key.id, i as int);
                }
                let _stale = self.dmabuf_pool.remove(i);
                break;
            }
            i += 1;
            proof {
                if i == pool.len() {
                    without_first_id_removes(pool, key.id, i as int);
                }
            }
        }
        false
    }

    /// Puts a new buffer at the front of the pool; the oldest goes when the
    /// pool is full.
    pub fn pool_insert(&mut self, key: DmabufKey, buf: B)
        ensures
            ({
                let all = old(self).dmabuf_pool@.insert(0, DmabufBuf { key, buf });
                final(self).dmabuf_pool@ == all.take(
                    min_int(all.len() as int, DMABUF_POOL_CAP as int),
                )
            }),
            final(self).backend == old(self).backend,
            final(self).current == old(self).current,
            final(self).has_gpu == old(self).has_gpu,
            final(self).gpu_failed == old(self).gpu_failed,
            final(self).present_failing == old(self).present_failing,
            final(self).has_content == old(self).has_content,
    {
        self.dmabuf_pool.insert(0, DmabufBuf { key, buf });
        let ghost all = self.dmabuf_pool@;
        self.dmabuf_pool.truncate(DMABUF_POOL_CAP);
        assert(self.dmabuf_pool@ =~= all.take(
            min_int(all.len() as int, DMABUF_POOL_CAP as int),
        ));
    }
}

/// A frame served from the pool is served with a buffer made from exactly its
/// memory; a frame that is not leaves no buffer of its identity behind. Either
/// way the pool stays within its cap, each memory in it once.
pub proof fn lease_keeps_pool<B>(pool: Seq<DmabufBuf<B>>, key: DmabufKey, idle: bool)
    requires
        pool_wf(pool),
    ensures
        ({
            let (after, pooled) = leased(pool, key, idle);
            &&& pool_wf(after)
            &&& pooled ==> after.len() > 0 && after[0].key == key
            &&& !pooled ==> forall|i: int|
                0 <= i < after.len() ==> (#[trigger] after[i]).key.id != key.id
        }),
{
    first_hit_is_first(pool, key);
    let (after, pooled) = leased(pool, key, idle);
    match first_hit(pool, key) {
        Some(i) => {
            let rest = pool.remove(i);
            assert forall|a: int, b: int| 0 <= a < b < rest.len() implies #[trigger] rest[a].key.id
                != #[trigger] rest[b].key.id by {
                let a2 = if a < i {
                    a
                } else {
                    a + 1
                };
                let b2 = if b < i {
                    b
                } else {
                    b + 1
                };
                assert(pool[a2].key.id != pool[b2].key.id);
            }
            assert forall|a: int| 0 <= a < rest.len() implies (#[trigger] rest[a]).key.id
                != key.id by {
                let a2 = if a < i {
                    a
                } else {
                    a + 1
                };
                if a2 < i {
                    assert(pool[a2].key.id != pool[i].key.id);
                } else {
                    assert(pool[i].key.id != pool[a2].key.id);
                }
            }
            if idle {
                assert forall|a: int, b: int|
                    0 <= a < b < after.len() implies #[trigger] after[a].key.id
                    != #[trigger] after[b].key.id by {
                    assert(after[b] == rest[b - 1]);
                    if a > 0 {
                        assert(after[a] == rest[a - 1]);
                    }
                }
            } else {
                without_first_id_removes(rest, key.id, rest.len() as int);
            }
        },
        None => {
            if exists|i: int| 0 <= i < pool.len() && (#[trigger] pool[i]).key.id == key.id {
                let i = choose|i: int| 0 <= i < pool.len() && (#[trigger] pool[i]).key.id == key.id;
                assert forall|j: int| 0 <= j < i implies (#[trigger] pool[j]).key.id != key.id by {
                    assert(pool[j].key.id != pool[i].key.id);
                }
                without_first_id_removes(pool, key.id, i);
                assert forall|a: int, b: int|
                    0 <= a < b < after.len() implies #[trigger] after[a].key.id
                    != #[trigger] after[b].key.id by {
                    let a2 = if a < i {
                        a
                    } else {
                        a + 1
                    };
                    let b2 = if b < i {
                        b
                    } else {
                        b + 1
                    };
                    assert(pool[a2].key.id != pool[b2].key.id);
                }
                assert forall|a: int| 0 <= a < after.len() implies (#[trigger] after[a]).key.id
                    != key.id by {
                    let a2 = if a < i {
                        a
                    } else {
                        a + 1
                    };
                    if a2 < i {
                        assert(pool[a2].key.id != pool[i].key.id);
                    } else {
                        assert(pool[i].key.id != pool[a2].key.id);
                    }
                }
            } else {
                without_first_id_removes(pool, key.id, pool.len() as int);
            }
        },
    }
}

/// Making the buffer a lease asked for, and putting it in the pool, keeps the
/// pool within its cap, each memory in it once.
pub proof fn insert_keeps_pool<B>(pool: Seq<DmabufBuf<B>>, key: DmabufKey, buf: B)
    requires
        pool_wf(pool),
        !leased(pool, key, false).1,
    ensures
        ({
            let all = leased(pool, key, false).0.insert(0, DmabufBuf { key, buf });
            pool_wf(all.take(min_int(all.len() as int, DMABUF_POOL_CAP as int)))
        }),
{
    lease_keeps_pool(pool, key, false);
    let after = leased(pool, key, false).0;
    let all = after.insert(0, DmabufBuf { key, buf });
    assert forall|a: int, b: int| 0 <= a < b < all.len() implies #[trigger] all[a].key.id
        != #[trigger] all[b].key.id by {
        assert(all[b] == after[b - 1]);
        if a > 0 {
            assert(all[a] == after[a - 1]);
        }
    }
}

} // verus!
