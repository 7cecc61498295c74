//! What holds of a layer's frames from the browser to the screen.

use vstd::prelude::*;

use crate::abi::JfnRect;
use crate::wayland::layer::Present;
use crate::wayland::layer::PresentError;
use crate::wayland::layer::SharedTexture;
use crate::wayland::layer::ViewportState;
use crate::wayland::layer_actor::dirty_rects;
use crate::wayland::layer_actor::shm_enqueued;
use crate::wayland::layer_actor::LayerView;
use crate::wayland::layer_actor::PendingView;
use crate::wayland::layer_actor::ShadowState;
use crate::wayland::layer_worker::content_after;
use crate::wayland::layer_worker::decided;
use crate::wayland::layer_worker::Action;
use crate::wayland::layer_worker::Iteration;
use crate::wayland::layer_worker::Runner;
use crate::wayland::layer_worker::Snapshot;
use crate::wayland::shm_shadow::bytes_at;
use crate::wayland::shm_shadow::clamped_rect;
use crate::wayland::shm_shadow::cut_rows;
use crate::wayland::shm_shadow::dirty_rect;
use crate::wayland::shm_shadow::frame_len;
use crate::wayland::shm_shadow::overwrite;
use crate::wayland::shm_shadow::patched;
use crate::wayland::shm_shadow::patched_picture;
use crate::wayland::shm_shadow::patched_rect;
use crate::wayland::shm_shadow::patched_rows;
use crate::wayland::shm_shadow::picture_ok;
use crate::wayland::shm_shadow::shadow_base;
use crate::wayland::shm_shadow::with_full;
use crate::wayland::shm_shadow::ShmRectView;

verus! {

/// Byte `i` of a picture whose rows are `stride` bytes apart lies in `r`.
pub open spec fn in_rect(r: JfnRect, stride: int, i: int) -> bool {
    exists|row: int|
        #![trigger row * stride]
        r.y <= row < r.y + r.h && row * stride + 4 * r.x <= i < row * stride + 4 * (r.x + r.w)
}

/// Byte `i` of a frame lies in one of the rectangles the browser repainted.
pub open spec fn in_dirty(dirty: Seq<JfnRect>, width: int, height: int, i: int) -> bool {
    exists|k: int|
        #![trigger dirty[k]]
        0 <= k < dirty.len() && (clamped_rect(dirty[k], width, height) matches Some(r) && in_rect(
            r,
            4 * width,
            i,
        ))
}

/// An extent a frame can have in memory.
pub open spec fn frame_ok(pixels: Seq<u8>, width: i32, height: i32) -> bool {
    &&& width > 0
    &&& height > 0
    &&& 4 * width <= usize::MAX
    &&& pixels.len() == frame_len(width as int, height as int)
    &&& pixels.len() <= usize::MAX
}

/// `new` shows what `last` did, but for what was repainted.
pub open spec fn repainted(
    last: Seq<u8>,
    new: Seq<u8>,
    width: i32,
    height: i32,
    dirty: Seq<JfnRect>,
) -> bool {
    &&& last.len() == new.len()
    &&& forall|i: int|
        0 <= i < new.len() ==> last[i] == new[i] || #[trigger] in_dirty(
            dirty,
            width as int,
            height as int,
            i,
        )
}

pub(crate) proof fn cut_rows_fit(s: Seq<u8>, stride: int, skip: int, n: int, from: int, to: int)
    requires
        0 <= from <= to,
        0 <= skip,
        0 <= n,
        skip + n <= stride,
        to * stride <= s.len(),
    ensures
        cut_rows(s, stride, skip, n, from, to).len() == (to - from) * n,
        forall|k: int|
            #![trigger k * n]
            0 <= k < to - from ==> {
                &&& 0 <= k * n
                &&& k * n + n <= (to - from) * n
                &&& cut_rows(s, stride, skip, n, from, to).subrange(k * n, k * n + n)
                    == s.subrange((from + k) * stride + skip, (from + k) * stride + skip + n)
            },
    decreases to - from,
{
    if from < to {
        assert((to - 1) * stride + stride == to * stride) by (nonlinear_arith);
        assert(0 <= (to - 1) * stride) by (nonlinear_arith)
            requires
                0 <= to - 1,
                0 <= stride,
        ;
        cut_rows_fit(s, stride, skip, n, from, to - 1);
        let before = cut_rows(s, stride, skip, n, from, to - 1);
        let all = cut_rows(s, stride, skip, n, from, to);
        let m = to - from;
        assert((m - 1) * n + n == m * n) by (nonlinear_arith);
        assert(0 <= (m - 1) * n) by (nonlinear_arith)
            requires
                0 <= m - 1,
                0 <= n,
        ;
        assert(all.len() == m * n);
        assert forall|k: int| #![trigger k * n] 0 <= k < m implies {
            &&& 0 <= k * n
            &&& k * n + n <= m * n
            &&& all.subrange(k * n, k * n + n) == s.subrange(
                (from + k) * stride + skip,
                (from + k) * stride + skip + n,
            )
        } by {
            if k < m - 1 {
                assert(all.subrange(k * n, k * n + n) =~= before.subrange(k * n, k * n + n));
            } else {
                assert(all.subrange(k * n, k * n + n) =~= bytes_at(s, (to - 1) * stride + skip, n));
            }
        }
    } else {
        assert((to - from) * n == 0) by (nonlinear_arith)
            requires
                to == from,
        ;
    }
}

/// Writing a rectangle cut from `new` changes bytes only to those of `new`, and
/// does so in the whole rectangle.
proof fn patched_rect_from_source(
    s: Seq<u8>,
    new: Seq<u8>,
    width: i32,
    height: i32,
    rect: JfnRect,
)
    requires
        frame_ok(new, width, height),
        s.len() == new.len(),
    ensures
        match dirty_rect(new, 4 * width, width as int, height as int, rect) {
            Some(v) => {
                let after = patched_rect(s, 4 * width, v);
                let r = clamped_rect(rect, width as int, height as int)->Some_0;
                &&& after.len() == s.len()
                &&& forall|i: int|
                    #![trigger after[i]]
                    0 <= i < s.len() ==> after[i] == new[i] || after[i] == s[i]
                &&& forall|i: int|
                    #![trigger in_rect(r, 4 * width, i)]
                    0 <= i < s.len() && in_rect(r, 4 * width, i) ==> after[i] == new[i]
            },
            None => true,
        },
{
    let stride = 4 * width;
    match dirty_rect(new, stride, width as int, height as int, rect) {
        Some(v) => {
            let r = clamped_rect(rect, width as int, height as int)->Some_0;
            assert((r.y + r.h) * stride <= height * stride) by (nonlinear_arith)
                requires
                    r.y + r.h <= height,
                    0 <= stride,
            ;
            assert(height * stride == new.len());
            cut_rows_fit(new, stride, 4 * r.x, 4 * r.w, r.y as int, r.y + r.h);
            patched_rows_from_source(s, new, stride, r, v, r.h as int);
            let after = patched_rect(s, stride, v);
            assert forall|i: int|
                #![trigger in_rect(r, 4 * width, i)]
                0 <= i < s.len() && in_rect(r, 4 * width, i) implies after[i] == new[i] by {
                let row = choose|row: int|
                    #![trigger row * stride]
                    r.y <= row < r.y + r.h && row * stride + 4 * r.x <= i < row * stride + 4 * (r.x
                        + r.w);
                assert(((row - r.y) + r.y) * stride == row * stride);
            }
        },
        None => {},
    }
}

proof fn patched_rows_from_source(
    s: Seq<u8>,
    new: Seq<u8>,
    stride: int,
    r: JfnRect,
    v: ShmRectView,
    rows: int,
)
    requires
        s.len() == new.len(),
        0 <= rows <= r.h,
        0 <= r.x,
        0 <= r.y,
        0 <= r.w,
        r.y + r.h <= i32::MAX,
        4 * (r.x + r.w) <= stride,
        (r.y + r.h) * stride <= new.len(),
        v.x == r.x && v.y == r.y && v.w == r.w && v.h == r.h,
        v.pixels.len() == r.h * (4 * r.w),
        forall|k: int|
            #![trigger k * (4 * r.w)]
            0 <= k < r.h ==> {
                &&& 0 <= k * (4 * r.w)
                &&& k * (4 * r.w) + 4 * r.w <= r.h * (4 * r.w)
                &&& v.pixels.subrange(k * (4 * r.w), k * (4 * r.w) + 4 * r.w) == new.subrange(
                    (r.y + k) * stride + 4 * r.x,
                    (r.y + k) * stride + 4 * r.x + 4 * r.w,
                )
            },
    ensures
        ({
            let after = patched_rows(s, stride, v, rows);
            &&& after.len() == s.len()
            &&& forall|i: int|
                #![trigger after[i]]
                0 <= i < s.len() ==> after[i] == new[i] || after[i] == s[i]
            &&& forall|k: int, i: int|
                #![trigger (k + r.y) * stride, after[i]]
                0 <= k < rows && (k + r.y) * stride + 4 * r.x <= i < (k + r.y) * stride + 4 * (r.x
                    + r.w) ==> after[i] == new[i]
        }),
    decreases rows,
{
    if rows > 0 {
        patched_rows_from_source(s, new, stride, r, v, rows - 1);
        let before = patched_rows(s, stride, v, rows - 1);
        let row = rows - 1;
        let n = 4 * r.w;
        let dst = (r.y + row) * stride + 4 * r.x;
        assert(row * n + n <= r.h * n && 0 <= row * n);
        assert((r.y + row) * stride + stride <= (r.y + r.h) * stride) by (nonlinear_arith)
            requires
                row + 1 <= r.h,
                0 <= stride,
        ;
        assert(0 <= (r.y + row) * stride) by (nonlinear_arith)
            requires
                0 <= r.y + row,
                0 <= stride,
        ;
        let src = v.pixels.subrange(row * n, row * n + n);
        assert(src == new.subrange(dst, dst + n));
        let after = patched_rows(s, stride, v, rows);
        assert(after == overwrite(before, dst, src));
        assert forall|i: int| #![trigger after[i]] 0 <= i < s.len() implies after[i] == new[i]
            || after[i] == s[i] by {
            if dst <= i < dst + n {
                assert(src[i - dst] == new[i]);
            } else {
                assert(after[i] == before[i]);
            }
        }
        assert forall|k: int, i: int|
            #![trigger (k + r.y) * stride, after[i]]
            0 <= k < rows && (k + r.y) * stride + 4 * r.x <= i < (k + r.y) * stride + 4 * (r.x
                + r.w) implies after[i] == new[i] by {
            assert((k + r.y) * stride + stride <= (r.y + r.h) * stride) by (nonlinear_arith)
                requires
                    k + 1 <= r.h,
                    0 <= stride,
            ;
            assert(0 <= (k + r.y) * stride) by (nonlinear_arith)
                requires
                    0 <= k + r.y,
                    0 <= stride,
            ;
            if dst <= i < dst + n {
                assert(src[i - dst] == new[i]);
            } else if k == row {
                assert((k + r.y) * stride == (r.y + row) * stride);
            } else {
                assert(before[i] == new[i]);
            }
        }
    }
}

proof fn patched_from_source(
    s: Seq<u8>,
    new: Seq<u8>,
    width: i32,
    height: i32,
    dirty: Seq<JfnRect>,
)
    requires
        frame_ok(new, width, height),
        s.len() == new.len(),
    ensures
        ({
            let after = patched(
                s,
                4 * width,
                dirty_rects(new, 4 * width, width as int, height as int, dirty),
            );
            &&& after.len() == s.len()
            &&& forall|i: int|
                #![trigger after[i]]
                0 <= i < s.len() ==> after[i] == new[i] || after[i] == s[i]
            &&& forall|i: int|
                #![trigger in_dirty(dirty, width as int, height as int, i)]
                0 <= i < s.len() && in_dirty(dirty, width as int, height as int, i) ==> after[i]
                    == new[i]
        }),
    decreases dirty.len(),
{
    let (w, h) = (width as int, height as int);
    let stride = 4 * width;
    if dirty.len() > 0 {
        let front = dirty.drop_last();
        patched_from_source(s, new, width, height, front);
        let rects0 = dirty_rects(new, stride, w, h, front);
        let mid = patched(s, stride, rects0);
        patched_rect_from_source(mid, new, width, height, dirty.last());
        let rects = dirty_rects(new, stride, w, h, dirty);
        let after = patched(s, stride, rects);
        match dirty_rect(new, stride, w, h, dirty.last()) {
            Some(v) => {
                assert(rects.drop_last() =~= rects0);
                assert(after == patched_rect(mid, stride, v));
            },
            None => {
                assert(after == mid);
            },
        }
        assert forall|i: int|
            #![trigger in_dirty(dirty, w, h, i)]
            0 <= i < s.len() && in_dirty(dirty, w, h, i) implies after[i] == new[i] by {
            let k = choose|k: int|
                #![trigger dirty[k]]
                0 <= k < dirty.len() && (clamped_rect(dirty[k], w, h) matches Some(r) && in_rect(
                    r,
                    4 * w,
                    i,
                ));
            let r = clamped_rect(dirty[k], w, h)->Some_0;
            if k < front.len() {
                assert(front[k] == dirty[k]);
                assert(in_dirty(front, w, h, i));
                assert(mid[i] == new[i]);
                assert(after[i] == new[i] || after[i] == mid[i]);
            } else {
                assert(in_rect(r, 4 * width, i));
            }
        }
        assert forall|i: int| #![trigger after[i]] 0 <= i < s.len() implies after[i] == new[i]
            || after[i] == s[i] by {
            assert(mid[i] == new[i] || mid[i] == s[i]);
        }
    }
}

/// A picture patched with what was repainted is the new frame, pixel for pixel.
pub proof fn dirty_frame_reproduces_source(
    last: Seq<u8>,
    new: Seq<u8>,
    width: i32,
    height: i32,
    dirty: Seq<JfnRect>,
)
    requires
        frame_ok(new, width, height),
        repainted(last, new, width, height, dirty),
    ensures
        patched_picture(
            last,
            width as int,
            dirty_rects(new, 4 * width, width as int, height as int, dirty),
        ) == new,
{
    patched_from_source(last, new, width, height, dirty);
    let after = patched(
        last,
        4 * width,
        dirty_rects(new, 4 * width, width as int, height as int, dirty),
    );
    assert forall|i: int| 0 <= i < new.len() implies after[i] == new[i] by {
        if last[i] != new[i] {
            assert(in_dirty(dirty, width as int, height as int, i));
        }
    }
    assert(after =~= new);
}

proof fn patched_append(s: Seq<u8>, stride: int, a: Seq<ShmRectView>, b: Seq<ShmRectView>)
    ensures
        patched(s, stride, a + b) == patched(patched(s, stride, a), stride, b),
    decreases b.len(),
{
    if b.len() == 0 {
        assert(a + b =~= a);
    } else {
        patched_append(s, stride, a, b.drop_last());
        assert((a + b).drop_last() =~= a + b.drop_last());
        assert((a + b).last() == b.last());
    }
}

/// The worker's picture after it has composed a waiting shared-memory frame.
pub open spec fn composed(
    picture: Seq<u8>,
    size: (i32, i32),
    rects: Seq<ShmRectView>,
    full: Option<Seq<u8>>,
    width: i32,
    height: i32,
) -> Seq<u8> {
    patched_picture(
        with_full(shadow_base(picture, size, width, height), full),
        width as int,
        rects,
    )
}

/// Where the mailbox calls the worker's picture valid, the worker has shown
/// `last`, or will once it has taken what waits.
pub open spec fn coherent<F>(
    s: LayerView<F>,
    picture: Seq<u8>,
    size: (i32, i32),
    last: Seq<u8>,
    width: i32,
    height: i32,
) -> bool {
    s.shadow is Valid ==> {
        &&& s.shadow == (ShadowState::Valid { size: (width, height) })
        &&& match s.pending {
            None => size == (width, height) && picture == last,
            Some(PendingView::Shm { rects, full_pixels, width: w, height: h }) => {
                &&& w == width && h == height
                &&& full_pixels is None ==> size == (width, height) && picture.len() == last.len()
                &&& composed(picture, size, rects, full_pixels, width, height) == last
            },
            _ => false,
        }
    }
}

/// Whatever the worker has or has not taken yet, handing over a frame leaves
/// the mailbox such that the worker will show exactly that frame: whole frames
/// and patches, joined or replaced, add up.
pub proof fn enqueued_frame_will_be_shown<F>(
    s: LayerView<F>,
    picture: Seq<u8>,
    size: (i32, i32),
    last: Seq<u8>,
    last_width: i32,
    last_height: i32,
    new: Seq<u8>,
    width: i32,
    height: i32,
    dirty: Seq<JfnRect>,
)
    requires
        picture_ok(picture, size),
        coherent(s, picture, size, last, last_width, last_height),
        frame_ok(new, width, height),
        (last_width, last_height) == (width, height) ==> repainted(
            last,
            new,
            width,
            height,
            dirty,
        ),
    ensures
        ({
            let after = shm_enqueued(s, new, width, height, dirty).1;
            &&& after.shadow is Valid
            &&& coherent(after, picture, size, new, width, height)
        }),
{
    let (w, h) = (width as int, height as int);
    let rects = dirty_rects(new, 4 * width, w, h, dirty);
    let after = shm_enqueued(s, new, width, height, dirty).1;
    assert(new.take(frame_len(w, h)) =~= new);
    if s.needs_full(width, height) {
        let base = shadow_base(picture, size, width, height);
        assert(overwrite(base, 0, new) =~= new);
        assert(repainted(new, new, width, height, dirty));
        dirty_frame_reproduces_source(new, new, width, height, dirty);
    } else {
        assert((last_width, last_height) == (width, height));
        dirty_frame_reproduces_source(last, new, width, height, dirty);
        match s.pending {
            Some(PendingView::Shm { rects: earlier, full_pixels, width: pw, height: ph }) => {
                patched_append(picture, 4 * width, earlier, rects);
                if rects.len() == 0 {
                    assert(earlier + rects =~= earlier);
                }
            },
            _ => {},
        }
        if rects.len() == 0 {
            assert(patched_picture(last, w, rects) == last);
        }
    }
}

/// Once the worker has composed what waited, its picture is the last frame
/// handed over, and the mailbox says so.
pub proof fn taken_frame_is_shown<F>(
    s: LayerView<F>,
    picture: Seq<u8>,
    size: (i32, i32),
    last: Seq<u8>,
    width: i32,
    height: i32,
)
    requires
        s.shadow is Valid,
        coherent(s, picture, size, last, width, height),
    ensures
        ({
            let taken = LayerView { pending: None, hide_pending: false, viewport_dirty: false, ..s };
            match s.pending {
                Some(PendingView::Shm { rects, full_pixels, width: w, height: h }) => {
                    &&& composed(picture, size, rects, full_pixels, w, h) == last
                    &&& coherent(taken, last, (w, h), last, width, height)
                },
                _ => picture == last && coherent(taken, picture, size, last, width, height),
            }
        }),
{
}

/// After a dmabuf, a placeholder, a hide or a change of extent, the next
/// software frame is handed over whole, whatever its extent.
pub proof fn invalidating_events_force_a_full_copy<F>(
    s: LayerView<F>,
    frame: SharedTexture<F>,
    r: u8,
    g: u8,
    b: u8,
    viewport: ViewportState,
    width: i32,
    height: i32,
)
    ensures
        s.with_dmabuf(frame).needs_full(width, height),
        s.with_placeholder(r, g, b).needs_full(width, height),
        s.with_visible(false).needs_full(width, height),
        s.viewport != viewport ==> s.resized(viewport).needs_full(width, height),
{
}

/// Hiding drops the frame that waits: showing the layer again cannot bring it
/// back.
pub proof fn hide_drops_the_waiting_frame<F>(s: LayerView<F>)
    ensures
        s.with_visible(false).with_visible(true).pending is None,
{
}

/// A hidden GPU layer is left alone: nothing the worker does for it commits its
/// surface, whatever waits and whatever changed.
pub proof fn hidden_gpu_layer_is_not_committed<F, P, B>(
    r: Runner<P, B>,
    it: Iteration<F>,
    snap: Snapshot<F>,
    presented: Result<Present, PresentError>,
)
    requires
        r.backend is Gpu,
        !it.visible,
        it.action == decided(
            snap.pending,
            snap.pending_is_placeholder,
            it.visible,
            r.has_content,
            it.viewport_dirty,
        ),
    ensures
        !r.flushes(it, presented),
{
}

/// A change of extent reaches the surface of a visible layer in the same
/// iteration, however its frame went.
pub proof fn viewport_change_reaches_a_visible_layer<F, P, B>(
    r: Runner<P, B>,
    it: Iteration<F>,
    presented: Result<Present, PresentError>,
)
    requires
        it.visible,
        it.viewport_dirty,
    ensures
        r.flushes(it, presented),
{
}

/// A placeholder never covers content, and never counts as content.
pub proof fn placeholder_never_covers_content<F>(frame: F, viewport_dirty: bool, committed: bool)
    ensures
        decided(Some(frame), true, true, true, viewport_dirty) == Action::<F>::Nop,
        decided(Some(frame), true, true, false, viewport_dirty) == Action::Present(frame),
        !content_after(false, Action::Present(frame), committed, true),
{
}

} // verus!
