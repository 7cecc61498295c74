//! What a frame becomes on its way through a layer: how it is cut, where it
//! goes, and what it leaves behind in the mailbox and in the pool of buffers.

use vstd::prelude::*;

use crate::abi::JfnRect;
use crate::wayland::layer::Present;
use crate::wayland::layer::PresentError;
use crate::wayland::layer::SharedTexture;
use crate::wayland::layer::ViewportState;
use crate::wayland::layer_actor::Kind;
use crate::wayland::layer_actor::LayerActor;
use crate::wayland::layer_actor::LayerState;
use crate::wayland::layer_actor::PendingFrame;
use crate::wayland::layer_actor::PendingView;
use crate::wayland::layer_actor::ShadowState;
use crate::wayland::layer_worker::gpu_presented;
use crate::wayland::layer_worker::lease_request;
use crate::wayland::layer_worker::take_snapshot;
use crate::wayland::layer_worker::wants_worker;
use crate::wayland::layer_worker::Backend;
use crate::wayland::layer_worker::Conclusion;
use crate::wayland::layer_worker::DmabufKey;
use crate::wayland::layer_worker::FrameTask;
use crate::wayland::layer_worker::Iteration;
use crate::wayland::layer_worker::LeaseRequest;
use crate::wayland::layer_worker::Painted;
use crate::wayland::layer_worker::Runner;
use crate::wayland::layer_worker::Snapshot;
use crate::wayland::layer_worker::DMABUF_POOL_CAP;
use crate::wayland::shm_shadow::clamped_rect;
use crate::wayland::shm_shadow::frame_len;

verus! {

/// A commit scales what it shows to exactly the layer's logical extent.
pub open spec fn fills(dst_w: i32, dst_h: i32, vps: ViewportState) -> bool {
    dst_w == vps.lw && dst_h == vps.lh
}

/// `cut` is what both `frame` and `surface` hold of one side.
pub open spec fn shared_side(cut: int, frame: int, surface: int) -> bool {
    cut <= frame && cut <= surface && (cut == frame || cut == surface)
}

/// Whatever kind of frame is shown, the picture covers the window exactly: it is
/// scaled to the layer's logical extent, width to width and height to height.
pub proof fn every_frame_fills_the_layer<P, B, F>(
    run: &mut Runner<P, B>,
    frame: PendingFrame<F>,
    vps: ViewportState,
    has_target: bool,
    r: Result<FrameTask, PresentError>,
)
    requires
        call_ensures(Runner::<P, B>::present::<F>, (run, &frame, vps, has_target), r),
    ensures
        match r {
            Ok(FrameTask::Paint(g)) => fills(g.dst_w, g.dst_h, vps),
            Ok(FrameTask::Draw(c)) => fills(c.dst_w, c.dst_h, vps),
            Ok(FrameTask::Lease(c)) => fills(c.dst_w, c.dst_h, vps),
            Ok(FrameTask::Fill(_, c)) => fills(c.dst_w, c.dst_h, vps),
            Ok(FrameTask::Skip) => true,
            Err(_) => true,
        },
{
}

/// A software frame, on the GPU or in shared memory, is shown from its corner as
/// far as both the frame and the layer's physical extent reach, on each side.
pub proof fn software_frame_is_cut_to_the_surface<P, B, F>(
    run: &mut Runner<P, B>,
    frame: PendingFrame<F>,
    vps: ViewportState,
    has_target: bool,
    r: Result<FrameTask, PresentError>,
)
    requires
        call_requires(Runner::<P, B>::present::<F>, (run, &frame, vps, has_target)),
        call_ensures(Runner::<P, B>::present::<F>, (run, &frame, vps, has_target), r),
        old(run).presentable(frame),
    ensures
        match (frame, r) {
            (PendingFrame::Gpu(p), Ok(FrameTask::Paint(g))) => {
                &&& g.frame.w == p.width && g.frame.h == p.height
                &&& shared_side(g.src_w as int, p.width as int, vps.pw as int)
                &&& shared_side(g.src_h as int, p.height as int, vps.ph as int)
                &&& g.surface.w >= 1 && (g.surface.w == vps.pw || vps.pw < 1)
                &&& g.surface.h >= 1 && (g.surface.h == vps.ph || vps.ph < 1)
            },
            (PendingFrame::Shm(p), Ok(FrameTask::Draw(c))) => {
                &&& c.buf_w == p.width && c.buf_h == p.height
                &&& shared_side(c.src_w as int, p.width as int, vps.pw as int)
                &&& shared_side(c.src_h as int, p.height as int, vps.ph as int)
            },
            _ => true,
        },
{
}

/// A shared texture is attached whole and shown as far as it is visible; a
/// placeholder is one opaque pixel of its colour, stretched.
pub proof fn hardware_frame_and_placeholder_are_shown_whole<P, B, F>(
    run: &mut Runner<P, B>,
    frame: PendingFrame<F>,
    vps: ViewportState,
    has_target: bool,
    r: Result<FrameTask, PresentError>,
)
    requires
        call_ensures(Runner::<P, B>::present::<F>, (run, &frame, vps, has_target), r),
    ensures
        match frame {
            PendingFrame::Dmabuf(f) => {
                &&& r matches Ok(FrameTask::Lease(c))
                &&& c.buf_w == f.coded.w && c.buf_h == f.coded.h
                &&& c.src_w == f.visible.w && c.src_h == f.visible.h
                &&& *final(run) == *old(run)
            },
            PendingFrame::Placeholder(red, green, blue) => {
                &&& r matches Ok(FrameTask::Fill(pixel, c))
                &&& pixel@.len() == 4
                &&& pixel@[2] == red && pixel@[1] == green && pixel@[0] == blue && pixel@[3] == 255
                &&& c.buf_w == 1 && c.buf_h == 1 && c.src_w == 1 && c.src_h == 1
                &&& *final(run) == *old(run)
            },
            _ => true,
        },
{
}

/// A frame is skipped only where its layer is painted the other way, or cannot
/// have a painter. A painter is made for the first frame and then kept.
pub proof fn frame_is_skipped_only_on_the_other_backend<P, B, F>(
    run: &mut Runner<P, B>,
    frame: PendingFrame<F>,
    vps: ViewportState,
    has_target: bool,
    r: Result<FrameTask, PresentError>,
)
    requires
        call_ensures(Runner::<P, B>::present::<F>, (run, &frame, vps, has_target), r),
    ensures
        match (frame, old(run).backend) {
            (PendingFrame::Gpu(_), Backend::Shm { .. }) => r matches Ok(FrameTask::Skip),
            (PendingFrame::Gpu(_), Backend::Gpu { painter: Some(_) }) => old(run).has_gpu ==> {
                &&& r matches Ok(FrameTask::Paint(g))
                &&& !g.create
            },
            (PendingFrame::Gpu(_), Backend::Gpu { painter: None }) => {
                &&& old(run).has_gpu && has_target ==> {
                    &&& r matches Ok(FrameTask::Paint(g))
                    &&& g.create
                }
                &&& !has_target ==> (r matches Ok(FrameTask::Skip))
            },
            (PendingFrame::Shm(_), Backend::Gpu { .. }) => {
                &&& r matches Ok(FrameTask::Skip)
                &&& *final(run) == *old(run)
            },
            (PendingFrame::Shm(_), Backend::Shm { .. }) => !(r matches Ok(FrameTask::Skip)),
            _ => true,
        },
        !old(run).has_gpu && frame is Gpu ==> (r matches Ok(FrameTask::Skip)),
{
}

/// A dirty rectangle is cut to its overlap with the frame: a pixel lies in what
/// is left exactly where it lies in both.
pub proof fn dirty_rectangle_is_cut_to_the_frame(
    rect: JfnRect,
    width: i32,
    height: i32,
    x: int,
    y: int,
)
    requires
        4 * width <= usize::MAX,
    ensures
        ({
            let wanted = rect.x <= x < rect.x + rect.w && rect.y <= y < rect.y + rect.h && 0 <= x
                < width && 0 <= y < height;
            match clamped_rect(rect, width as int, height as int) {
                Some(c) => wanted <==> c.x <= x < c.x + c.w && c.y <= y < c.y + c.h,
                None => !wanted,
            }
        }),
{
}

/// A frame has four bytes for each of its pixels.
pub proof fn frame_has_four_bytes_a_pixel(width: i32, height: i32)
    requires
        0 < width,
        0 < height,
        4 * width <= usize::MAX,
    ensures
        frame_len(width as int, height as int) == width * height * 4,
{
    assert(height * (4 * width) == width * height * 4) by (nonlinear_arith);
}

/// A software frame is taken exactly where it has an extent and brings all its
/// bytes; one that is refused changes nothing. What is taken is the frame
/// itself: its bytes to the last and no further, its extent and what of it is
/// new. It replaces whatever waited, and touches nothing else.
pub proof fn software_frame_is_taken_whole_or_refused<F>(
    a: &mut LayerActor<F>,
    pixels: &[u8],
    width: i32,
    height: i32,
    dirty: &[JfnRect],
    r: Result<Present, PresentError>,
)
    requires
        4 * width <= usize::MAX,
        pixels@.len() <= usize::MAX,
        call_ensures(
            LayerActor::<F>::present_software,
            (a, pixels, width, height, dirty),
            r,
        ),
    ensures
        r is Ok <==> width > 0 && height > 0 && width * height * 4 <= pixels@.len(),
        r is Err ==> final(a).state@ == old(a).state@,
        width <= 0 || height <= 0 ==> r == Err::<Present, PresentError>(
            PresentError::BadDimensions(width, height),
        ),
        width > 0 && height > 0 && pixels@.len() < width * height * 4 <= usize::MAX ==> (r matches Err(
            PresentError::ShortBuffer { have, need },
        ) && have == pixels@.len() && need == width * height * 4),
        final(a).state@.viewport == old(a).state@.viewport,
        final(a).state@.visible == old(a).state@.visible,
        final(a).state@.shutdown == old(a).state@.shutdown,
        final(a).state@.hide_pending == old(a).state@.hide_pending,
        final(a).state@.viewport_dirty == old(a).state@.viewport_dirty,
        final(a).kind == old(a).kind && final(a).gpu_failed == old(a).gpu_failed,
        r is Ok ==> match final(a).state@.pending {
            Some(PendingView::Gpu(f)) if old(a).kind == Kind::Gpu && !old(a).gpu_failed => {
                &&& r == Ok::<Present, PresentError>(Present::Committed)
                &&& f.width == width && f.height == height
                &&& f.dirty == dirty@
                &&& f.pixels.len() == width * height * 4
                &&& forall|i: int| 0 <= i < f.pixels.len() ==> f.pixels[i] == pixels@[i]
                &&& 4 * width <= u32::MAX ==> f.stride == 4 * width
            },
            waiting => {
                &&& old(a).kind == Kind::Shm || old(a).gpu_failed
                &&& r == Ok::<Present, PresentError>(Present::Committed) ==> (waiting matches Some(
                    PendingView::Shm { width: w, height: h, .. },
                ) && w == width && h == height)
                &&& r == Ok::<Present, PresentError>(Present::Skipped)
                    ==> final(a).state@ == old(a).state@
            },
        },
{
    if width > 0 && height > 0 {
        frame_has_four_bytes_a_pixel(width, height);
        assert(width * height * 4 >= 0) by (nonlinear_arith)
            requires
                width > 0,
                height > 0,
        ;
    }
}

/// A frame on shared memory is handed over whole exactly where a patch would not
/// do, and is passed over only where it brings nothing new.
pub proof fn shared_memory_frame_is_whole_unless_the_picture_is_current<F>(
    a: &mut LayerActor<F>,
    pixels: &[u8],
    width: i32,
    height: i32,
    dirty: &[JfnRect],
    r: Result<Present, PresentError>,
)
    requires
        4 * width <= usize::MAX,
        old(a).kind == Kind::Shm || old(a).gpu_failed,
        call_ensures(
            LayerActor::<F>::present_software,
            (a, pixels, width, height, dirty),
            r,
        ),
        r is Ok,
    ensures
        ({
            let s = old(a).state@;
            let current = s.shadow == (ShadowState::Valid { size: (width, height) }) && !(
            s.pending matches Some(PendingView::Shm { full_pixels: Some(_), .. }));
            &&& !current ==> {
                &&& final(a).state@.pending matches Some(PendingView::Shm { full_pixels: Some(f), .. })
                &&& f.len() == width * height * 4
                &&& forall|i: int| 0 <= i < f.len() ==> f[i] == pixels@[i]
                &&& final(a).state@.shadow == (ShadowState::Valid { size: (width, height) })
            }
            &&& current ==> final(a).state@.shadow == s.shadow
            &&& current && dirty@.len() == 0 ==> r == Ok::<Present, PresentError>(Present::Skipped)
        }),
{
    if width > 0 && height > 0 {
        frame_has_four_bytes_a_pixel(width, height);
        assert(width * height * 4 >= 0) by (nonlinear_arith)
            requires
                width > 0,
                height > 0,
        ;
    }
}

/// A shared texture is taken exactly where it has an extent, and then waits
/// itself; the picture in shared memory is outdated by it.
pub proof fn shared_texture_waits_itself<F>(
    a: &mut LayerActor<F>,
    frame: SharedTexture<F>,
    r: Result<Present, PresentError>,
)
    requires
        call_ensures(LayerActor::<F>::present_dmabuf, (a, frame), r),
    ensures
        r is Ok <==> frame.coded.w > 0 && frame.coded.h > 0,
        r is Ok ==> final(a).state@.pending == Some(PendingView::Dmabuf(frame))
            && final(a).state@.shadow is Stale && final(a).state@.viewport
            == old(a).state@.viewport && final(a).state@.visible == old(a).state@.visible,
        r is Err ==> final(a).state@ == old(a).state@,
{
}

/// A layer takes on the extent it is given, side by side, unless there are no
/// physical pixels in it. A new extent is made known to the worker; the same one
/// again is not.
pub proof fn layer_takes_on_its_extent<F>(
    a: &mut LayerActor<F>,
    lw: i32,
    lh: i32,
    pw: i32,
    ph: i32,
    r: (),
)
    requires
        call_ensures(LayerActor::<F>::resize, (a, lw, lh, pw, ph), r),
    ensures
        ({
            let (before, after) = (old(a).state@, final(a).state@);
            let same = before.viewport.lw == lw && before.viewport.lh == lh && before.viewport.pw
                == pw && before.viewport.ph == ph;
            &&& pw > 0 && ph > 0 ==> after.viewport.lw == lw && after.viewport.lh == lh
                && after.viewport.pw == pw && after.viewport.ph == ph
            &&& pw > 0 && ph > 0 && !same ==> after.viewport_dirty && after.shadow is Stale
            &&& pw <= 0 || ph <= 0 || same ==> after == before
            &&& after.pending == before.pending && after.visible == before.visible
            &&& after.shutdown == before.shutdown && after.hide_pending == before.hide_pending
        }),
{
}

/// Hiding drops what waits and tells the worker; showing only shows.
pub proof fn hiding_drops_and_showing_shows<F>(a: &mut LayerActor<F>, visible: bool, r: ())
    requires
        call_ensures(LayerActor::<F>::set_visible, (a, visible), r),
    ensures
        ({
            let (before, after) = (old(a).state@, final(a).state@);
            &&& after.visible == visible
            &&& after.viewport == before.viewport && after.shutdown == before.shutdown
            &&& !visible ==> after.pending is None && after.hide_pending && after.shadow is Stale
            &&& visible ==> after.pending == before.pending && after.hide_pending
                == before.hide_pending && after.shadow == before.shadow
        }),
{
}

/// A placeholder of this colour waits in place of what waited.
pub proof fn placeholder_keeps_its_colour<F>(a: &mut LayerActor<F>, red: u8, green: u8, blue: u8, r: ())
    requires
        call_ensures(LayerActor::<F>::request_placeholder, (a, red, green, blue), r),
    ensures
        final(a).state@.pending matches Some(PendingView::Placeholder(x, y, z)) && x == red && y
            == green && z == blue,
        final(a).state@.shadow is Stale,
        final(a).state@.viewport == old(a).state@.viewport,
        final(a).state@.visible == old(a).state@.visible,
{
}

/// A layer that ends has nothing left to show, and its worker is told.
pub proof fn ended_layer_shows_nothing_more<F>(a: &mut LayerActor<F>, r: ())
    requires
        call_ensures(LayerActor::<F>::shutdown, (a,), r),
    ensures
        final(a).state@.shutdown,
        final(a).state@.pending is None,
{
}

/// Reading the mailbox takes all there is to do, and leaves nothing undone: the
/// worker is not wanted again for it.
pub proof fn mailbox_is_read_once<F>(s: &mut LayerState<F>, snap: Snapshot<F>, again: bool)
    requires
        call_ensures(take_snapshot::<F>, (s,), snap),
        call_ensures(wants_worker::<F>, (final(s),), again),
    ensures
        snap.pending == old(s).pending,
        snap.viewport == old(s).viewport && snap.visible == old(s).visible,
        snap.viewport_dirty == old(s).viewport_dirty && snap.shutdown == old(s).shutdown,
        snap.pending_is_placeholder <==> old(s).pending matches Some(PendingFrame::Placeholder(..)),
        again == old(s).shutdown,
        final(s).shadow == old(s).shadow,
{
    assert(final(s)@.pending is None);
    assert(final(s).pending is None);
    assert(final(s)@.shadow == old(s)@.shadow);
}

/// Any of a waiting frame, a hide, a new extent or the end wakes the worker.
pub proof fn worker_is_woken_for_everything<F>(s: LayerState<F>, wanted: bool)
    requires
        call_ensures(wants_worker::<F>, (&s,), wanted),
    ensures
        s.pending is Some ==> wanted,
        s.hide_pending ==> wanted,
        s.viewport_dirty ==> wanted,
        s.shutdown ==> wanted,
        wanted ==> s.pending is Some || s.hide_pending || s.viewport_dirty || s.shutdown,
{
}

/// What one wake-up does. A hidden layer is hidden whatever waits. A visible one
/// shows the frame that waits, unless it is a placeholder over content; without
/// a frame it takes on a new extent, and else does nothing.
pub proof fn wake_up_shows_the_waiting_frame<P, B, F>(
    run: Runner<P, B>,
    snap: Snapshot<F>,
    r: Option<Iteration<F>>,
)
    requires
        call_ensures(Runner::<P, B>::begin::<F>, (&run, snap), r),
    ensures
        r is None <==> snap.shutdown,
        r matches Some(it) ==> {
            &&& !snap.visible <==> it.action is Hide
            &&& it.action is Present ==> snap.pending == Some(it.action->Present_0)
            &&& snap.visible && snap.pending is Some ==> (it.action is Present
                || snap.pending_is_placeholder && run.has_content && it.action is Nop)
            &&& snap.visible && snap.pending is Some && !snap.pending_is_placeholder
                ==> it.action is Present
            &&& snap.visible && snap.pending is Some && !run.has_content ==> it.action is Present
            &&& snap.pending_is_placeholder && run.has_content ==> !(it.action is Present)
            &&& snap.visible && snap.pending is None ==> (it.action is ReapplyViewport
                <==> snap.viewport_dirty) && (it.action is Nop <==> !snap.viewport_dirty)
            &&& it.viewport == snap.viewport && it.visible == snap.visible
            &&& it.viewport_dirty == snap.viewport_dirty
            &&& it.hide_painter <==> !snap.visible && (run.backend matches Backend::Gpu {
                painter: Some(_),
            })
        },
{
}

/// A new extent is never lost: a visible layer commits it with its frame, or on
/// its own where the frame was not committed. A hidden GPU surface is not
/// committed at all.
pub proof fn new_extent_is_committed_once<P, B, F>(
    run: &mut Runner<P, B>,
    it: Iteration<F>,
    presented: Result<Present, PresentError>,
    c: Conclusion<P>,
)
    requires
        call_ensures(Runner::<P, B>::conclude::<F>, (run, &it, presented), c),
    ensures
        it.visible && it.viewport_dirty ==> c.flush,
        c.reapply_viewport ==> it.visible && it.viewport_dirty && c.flush,
        it.action is ReapplyViewport ==> c.flush && !c.reapply_viewport,
        it.action is Present && presented == Ok::<Present, PresentError>(Present::Committed)
            ==> c.flush && !c.reapply_viewport,
        it.action is Present && presented != Ok::<Present, PresentError>(Present::Committed)
            && it.visible && it.viewport_dirty ==> c.reapply_viewport,
        it.action is Hide && !it.visible ==> (c.flush <==> old(run).backend is Shm),
        it.action is Nop && !it.viewport_dirty ==> !c.flush,
        it.action is Hide && old(run).backend is Shm ==> final(run).current is None,
        !(it.action is Hide) ==> final(run).current == old(run).current,
        final(run).dmabuf_pool@ == old(run).dmabuf_pool@,
        final(run).has_gpu == old(run).has_gpu,
{
}

/// A GPU failure moves the layer to an empty picture in shared memory for good
/// and gives up the painter; no other failure does. Only the first failure of a
/// streak is logged, and a frame that is shown ends the streak.
pub proof fn only_a_gpu_failure_degrades<P, B, F>(
    run: &mut Runner<P, B>,
    it: Iteration<F>,
    presented: Result<Present, PresentError>,
    c: Conclusion<P>,
)
    requires
        call_ensures(Runner::<P, B>::conclude::<F>, (run, &it, presented), c),
        it.action is Present,
    ensures
        presented == Err::<Present, PresentError>(PresentError::Gpu) ==> {
            &&& c.degraded && final(run).gpu_failed
            &&& final(run).backend matches Backend::Shm { shadow }
            &&& shadow.pixels@.len() == 0 && shadow.size.0 == 0 && shadow.size.1 == 0
            &&& old(run).backend matches Backend::Gpu { painter } ==> c.retired == painter
        },
        presented != Err::<Present, PresentError>(PresentError::Gpu) ==> {
            &&& !c.degraded && c.retired is None
            &&& final(run).backend == old(run).backend
            &&& final(run).gpu_failed == old(run).gpu_failed
        },
        presented is Err ==> final(run).present_failing && (c.log_failure
            <==> !old(run).present_failing),
        presented is Ok ==> !c.log_failure,
        presented == Ok::<Present, PresentError>(Present::Committed) ==> !final(run).present_failing,
        presented == Ok::<Present, PresentError>(Present::Skipped) ==> final(run).present_failing
            == old(run).present_failing,
{
}

/// A layer shows content from the first real frame that is committed until it is
/// hidden.
pub proof fn content_lasts_until_hidden<P, B, F>(
    run: &mut Runner<P, B>,
    it: Iteration<F>,
    presented: Result<Present, PresentError>,
    c: Conclusion<P>,
)
    requires
        call_ensures(Runner::<P, B>::conclude::<F>, (run, &it, presented), c),
    ensures
        it.action is Hide ==> !final(run).has_content,
        !(it.action is Hide) && old(run).has_content ==> final(run).has_content,
        !old(run).has_content && final(run).has_content ==> it.action is Present
            && !it.is_placeholder && presented == Ok::<Present, PresentError>(Present::Committed),
        it.action is Present && !it.is_placeholder && presented == Ok::<Present, PresentError>(
            Present::Committed,
        ) ==> final(run).has_content,
{
}

/// A frame counts as committed exactly where it was painted, and a painter that
/// failed says so.
pub proof fn only_a_painted_frame_is_committed(painted: Painted, r: Result<Present, PresentError>)
    requires
        call_ensures(gpu_presented, (painted,), r),
    ensures
        r == Ok::<Present, PresentError>(Present::Committed) <==> painted == Painted::Yes,
        r == Err::<Present, PresentError>(PresentError::Gpu) <==> painted == Painted::Failed,
        r == Ok::<Present, PresentError>(Present::Skipped) <==> painted == Painted::Skipped,
{
}

/// A pooled buffer is told apart by its memory, its coded extent, the stride of
/// its first plane and its modifier: frames that agree in these share a buffer,
/// frames that differ in any do not.
pub proof fn buffers_are_told_apart_by_memory_and_shape<F>(
    a: SharedTexture<F>,
    b: SharedTexture<F>,
    ia: (u64, u64),
    ib: (u64, u64),
    ra: LeaseRequest,
    rb: LeaseRequest,
)
    requires
        a.planes@.len() > 0,
        b.planes@.len() > 0,
        call_ensures(lease_request::<F>, (true, &a, Some(ia)), ra),
        call_ensures(lease_request::<F>, (true, &b, Some(ib)), rb),
    ensures
        ra is Pooled && rb is Pooled,
        ra == rb <==> ia == ib && a.coded == b.coded && a.planes@[0].stride
            == b.planes@[0].stride && a.modifier == b.modifier,
        ra->Pooled_0.w == a.coded.w && ra->Pooled_0.h == a.coded.h && ra->Pooled_0.id == ia,
{
}

/// Without support or without planes there is no buffer; memory without an
/// identity gets one for this frame alone, with its first plane's stride.
pub proof fn buffer_without_identity_is_not_kept<F>(
    supported: bool,
    frame: SharedTexture<F>,
    id: Option<(u64, u64)>,
    r: LeaseRequest,
)
    requires
        call_ensures(lease_request::<F>, (supported, &frame, id), r),
    ensures
        r is Unavailable <==> !supported || frame.planes@.len() == 0,
        r is Pooled ==> id is Some,
        r is OneShot ==> id is None && r->stride == frame.planes@[0].stride,
{
}

/// A new buffer goes to the front of the pool; those there before follow in
/// their order, and only the oldest goes, when the pool is full.
pub proof fn newest_buffer_is_in_front<P, B>(run: &mut Runner<P, B>, key: DmabufKey, buf: B, r: ())
    requires
        call_ensures(Runner::<P, B>::pool_insert, (run, key, buf), r),
        old(run).dmabuf_pool@.len() <= DMABUF_POOL_CAP,
    ensures
        ({
            let (before, after) = (old(run).dmabuf_pool@, final(run).dmabuf_pool@);
            &&& after.len() > 0 && after[0].key == key && after[0].buf == buf
            &&& after.len() == before.len() + 1 || after.len() == before.len() && before.len() == 16
            &&& forall|i: int| 0 < i < after.len() ==> after[i] == before[i - 1]
        }),
{
}

/// A frame is served from the pool exactly where a buffer of its memory and
/// shape is there and idle.
pub proof fn pooled_exactly_where_an_idle_buffer_fits<P, B>(
    run: &mut Runner<P, B>,
    key: DmabufKey,
    idle: bool,
    hit: Option<usize>,
    pooled: bool,
)
    requires
        call_ensures(Runner::<P, B>::pool_hit, (&*old(run), &key), hit),
        call_ensures(Runner::<P, B>::lease_dmabuf, (run, &key, idle), pooled),
    ensures
        pooled <==> idle && hit is Some,
        pooled ==> {
            &&& final(run).dmabuf_pool@.len() == old(run).dmabuf_pool@.len()
            &&& final(run).dmabuf_pool@[0] == old(run).dmabuf_pool@[hit->Some_0 as int]
        },
        final(run).current == old(run).current,
        final(run).backend == old(run).backend,
{
}

} // verus!
