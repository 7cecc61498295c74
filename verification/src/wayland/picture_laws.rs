//! What a shared-memory picture shows pixel for pixel, what is done with a
//! frame, and when a window is presented.

use vstd::prelude::*;

use crate::abi::JfnRect;
use crate::wayland::layer::FrameCommit;
use crate::wayland::layer::Present;
use crate::wayland::layer::PresentError;
use crate::wayland::layer::SharedTexture;
use crate::wayland::layer::ViewportState;
use crate::wayland::layer_actor::route_software;
use crate::wayland::layer_actor::validate_present_dims;
use crate::wayland::layer_actor::Kind;
use crate::wayland::layer_actor::LayerActor;
use crate::wayland::layer_actor::Route;
use crate::wayland::layer_laws::cut_rows_fit;
use crate::wayland::layer_worker::decide;
use crate::wayland::layer_worker::degrade;
use crate::wayland::layer_worker::hide_detaches;
use crate::wayland::layer_worker::is_degrading_error;
use crate::wayland::layer_worker::next_content;
use crate::wayland::layer_worker::Action;
use crate::wayland::layer_worker::Backend;
use crate::wayland::layer_worker::DmabufLease;
use crate::wayland::layer_worker::Runner;
use crate::wayland::presentation::plan;
use crate::wayland::presentation::resolve_logical_size;
use crate::wayland::presentation::FloatingRestore;
use crate::wayland::presentation::Inputs;
use crate::wayland::presentation::ScaleDiscovery;
use crate::wayland::presentation::Step;
use crate::wayland::scale::Scale120;
use crate::wayland::shm_shadow::apply_dirty_to_shadow;
use crate::wayland::shm_shadow::checked_frame_len;
use crate::wayland::shm_shadow::compose_shm_shadow;
use crate::wayland::shm_shadow::copy_dirty_rect;
use crate::wayland::shm_shadow::full_view;
use crate::wayland::shm_shadow::patched;
use crate::wayland::shm_shadow::patched_rows;
use crate::wayland::shm_shadow::rects_view;
use crate::wayland::shm_shadow::shadow_base;
use crate::wayland::shm_shadow::with_full;
use crate::wayland::shm_shadow::ShmPayload;
use crate::wayland::shm_shadow::ShmRect;
use crate::wayland::shm_shadow::ShmRectView;
use crate::wayland::shm_shadow::ShmShadow;
use crate::wayland::window_state::scale_displaces;
use crate::wayland::window_state::window_size_sides;
use crate::wayland::window_state::ScaleProvenance;
use crate::wayland::window_state::WindowMode;
use crate::wayland::window_state::WindowSize;
use crate::wayland::window_state::WindowState;

verus! {

/// Where byte `b` of row `y` stands in a picture of this width.
pub open spec fn byte_at(width: int, y: int, b: int) -> int {
    y * (4 * width) + b
}

proof fn rows_patched(
    s: Seq<u8>,
    width: int,
    height: int,
    q: ShmRectView,
    rows: int,
    y: int,
    b: int,
)
    requires
        0 <= q.x && 0 <= q.y && 0 < q.w && 0 <= rows <= q.h,
        q.x + q.w <= width,
        q.y + q.h <= height <= i32::MAX,
        s.len() == height * (4 * width),
        q.pixels.len() == q.h * (4 * q.w),
        0 <= y < height,
        0 <= b < 4 * width,
    ensures
        ({
            let after = patched_rows(s, 4 * width, q, rows);
            &&& after.len() == s.len()
            &&& 0 <= byte_at(width, y, b) < s.len()
            &&& after[byte_at(width, y, b)] == if q.y <= y < q.y + rows && 4 * q.x <= b < 4 * (q.x
                + q.w) {
                q.pixels[byte_at(q.w as int, y - q.y, b - 4 * q.x)]
            } else {
                s[byte_at(width, y, b)]
            }
        }),
    decreases rows,
{
    let stride = 4 * width;
    let at = byte_at(width, y, b);
    assert(0 <= y * stride && y * stride + stride <= height * stride) by (nonlinear_arith)
        requires
            0 <= y < height,
            0 <= stride,
    ;
    if rows > 0 {
        rows_patched(s, width, height, q, rows - 1, y, b);
        let row = rows - 1;
        let n = 4 * q.w;
        let dst = (q.y + row) * stride + 4 * q.x;
        assert(0 <= row * n && row * n + n <= q.h * n) by (nonlinear_arith)
            requires
                0 <= row < q.h,
                0 <= n,
        ;
        assert(0 <= (q.y + row) * stride && (q.y + row) * stride + stride <= height * stride)
            by (nonlinear_arith)
            requires
                0 <= q.y + row < height,
                0 <= stride,
        ;
        if y < q.y + row {
            assert(y * stride + stride <= (q.y + row) * stride) by (nonlinear_arith)
                requires
                    y + 1 <= q.y + row,
                    0 <= stride,
            ;
        } else if y > q.y + row {
            assert((q.y + row) * stride + stride <= y * stride) by (nonlinear_arith)
                requires
                    q.y + row + 1 <= y,
                    0 <= stride,
            ;
        } else {
            assert((y - q.y) * n == row * n);
            if dst <= at < dst + n {
                assert(q.pixels.subrange(row * n, row * n + n)[at - dst] == q.pixels[row * n + (at
                    - dst)]);
            }
        }
    }
}

/// A rectangle written into a picture changes exactly its own pixels, each to the
/// one the rectangle has there.
pub proof fn rectangle_changes_its_own_pixels(
    shadow: &mut Vec<u8>,
    width: i32,
    height: i32,
    rects: Vec<ShmRect>,
    u: (),
    y: int,
    b: int,
)
    requires
        call_ensures(apply_dirty_to_shadow, (shadow, width, &rects), u),
        rects@.len() == 1,
        0 <= rects@[0].x && 0 <= rects@[0].y && 0 < rects@[0].w && 0 < rects@[0].h,
        rects@[0].x + rects@[0].w <= width,
        rects@[0].y + rects@[0].h <= height,
        old(shadow)@.len() == height * (4 * width),
        4 * width <= usize::MAX,
        rects@[0].pixels@.len() == rects@[0].h * (4 * rects@[0].w),
        0 <= y < height,
        0 <= b < 4 * width,
    ensures
        final(shadow)@.len() == old(shadow)@.len(),
        ({
            let q = rects@[0];
            let inside = q.y <= y < q.y + q.h && 4 * q.x <= b < 4 * (q.x + q.w);
            final(shadow)@[byte_at(width as int, y, b)] == if inside {
                q.pixels@[byte_at(q.w as int, y - q.y, b - 4 * q.x)]
            } else {
                old(shadow)@[byte_at(width as int, y, b)]
            }
        }),
{
    let views = rects_view(rects@);
    let q = rects@[0]@;
    reveal_with_fuel(patched, 2);
    assert(views.last() == q);
    assert(views.drop_last() =~= Seq::empty());
    rows_patched(old(shadow)@, width as int, height as int, q, q.h as int, y, b);
}

/// No rectangle changes nothing, and rectangles are written one after the other.
pub proof fn rectangles_are_written_in_turn(
    a: &mut Vec<u8>,
    b: &mut Vec<u8>,
    c: &mut Vec<u8>,
    width: i32,
    first: Vec<ShmRect>,
    last: Vec<ShmRect>,
    all: Vec<ShmRect>,
    none: Vec<ShmRect>,
    d: &mut Vec<u8>,
    u: (),
)
    requires
        last@.len() == 1,
        all@ == first@ + last@,
        none@.len() == 0,
        call_ensures(apply_dirty_to_shadow, (a, width, &first), u),
        old(b)@ == final(a)@,
        call_ensures(apply_dirty_to_shadow, (b, width, &last), u),
        old(c)@ == old(a)@,
        call_ensures(apply_dirty_to_shadow, (c, width, &all), u),
        call_ensures(apply_dirty_to_shadow, (d, width, &none), u),
    ensures
        final(c)@ == final(b)@,
        final(d)@ == old(d)@,
{
    reveal_with_fuel(patched, 2);
    let v = rects_view(all@);
    assert(v.drop_last() =~= rects_view(first@));
    assert(v.last() == last@[0]@);
    assert(rects_view(last@).drop_last() =~= Seq::empty());
    assert(rects_view(last@).last() == last@[0]@);
    assert(rects_view(none@) =~= Seq::empty());
}

/// A whole frame is shown as it is, and patches are written over it; without one
/// they are written over the last picture, or over black where the extent is new.
pub proof fn picture_is_the_frame_and_its_patches(
    shadow: &mut ShmShadow,
    p: ShmPayload,
    r: Result<(), PresentError>,
    base: &mut Vec<u8>,
    u: (),
)
    requires
        call_ensures(compose_shm_shadow, (shadow, &p), r),
        r is Ok,
        p.full_pixels matches Some(f) ==> old(base)@ == f@ && (old(shadow).size == (p.width, p.height)
            ==> f@.len() == old(shadow).pixels@.len()) && (old(shadow).size != (p.width, p.height)
            ==> p.width > 0 && p.height > 0 && 4 * p.width <= usize::MAX && f@.len() == p.height * (4
            * p.width)),
        p.full_pixels is None && old(shadow).size == (p.width, p.height) ==> old(base)@
            == old(shadow).pixels@,
        p.full_pixels is None && old(shadow).size != (p.width, p.height) ==> p.width > 0 && p.height
            > 0 && 4 * p.width <= usize::MAX && old(base)@.len() == p.height * (4 * p.width)
            && forall|i: int| 0 <= i < old(base)@.len() ==> old(base)@[i] == 0,
        call_ensures(apply_dirty_to_shadow, (base, p.width, &p.rects), u),
    ensures
        final(shadow).size == (p.width, p.height),
        final(shadow).pixels@ == final(base)@,
{
    let start = shadow_base(
        old(shadow).pixels@,
        old(shadow).size,
        p.width,
        p.height,
    );
    let whole = with_full(
        start,
        full_view(p.full_pixels),
    );
    assert(whole =~= old(base)@);
}

/// A frame is refused only where its bytes cannot be counted, and then nothing
/// changes; bytes are four a pixel.
pub proof fn only_an_unaddressable_frame_is_refused(
    shadow: &mut ShmShadow,
    p: ShmPayload,
    r: Result<(), PresentError>,
    n: Option<usize>,
    w: i32,
    h: i32,
)
    requires
        call_ensures(compose_shm_shadow, (shadow, &p), r),
        call_ensures(checked_frame_len, (w, h), n),
    ensures
        r matches Err(e) ==> e == PresentError::BadDimensions(p.width, p.height) && *final(shadow)
            == *old(shadow),
        old(shadow).size == (p.width, p.height) ==> r is Ok,
        p.width > 0 && p.height > 0 && 4 * p.width <= usize::MAX && p.height * (4 * p.width)
            <= usize::MAX ==> r is Ok,
        w > 0 && h > 0 && 4 * w <= usize::MAX ==> (n is Some <==> h * (4 * w) <= usize::MAX) && (n
            is Some ==> n->Some_0 == h * (4 * w)),
{
}

/// The first row of a copied rectangle is that of the frame, from the rectangle's
/// left edge on; all rows are as long.
pub proof fn copied_rectangle_is_the_frame(
    pixels: &[u8],
    width: i32,
    height: i32,
    rect: JfnRect,
    r: Option<ShmRect>,
    y: int,
    b: int,
)
    requires
        call_ensures(copy_dirty_rect, (pixels, (4 * width) as usize, width, height, &rect), r),
        0 < width && 4 * width <= usize::MAX,
        0 < height,
        pixels@.len() == height * (4 * width),
        0 <= y,
        0 <= b,
        r matches Some(q) ==> y < q.h && b < 4 * q.w,
    ensures
        r matches Some(q) ==> {
            &&& q.pixels@.len() == q.h * (4 * q.w)
            &&& q.pixels@[byte_at(q.w as int, y, b)] == pixels@[byte_at(
                width as int,
                q.y + y,
                4 * q.x + b,
            )]
        },
{
    if let Some(q) = r {
        let stride = 4 * width;
        let n = 4 * q.w;
        assert((q.y + q.h) * stride <= height * stride) by (nonlinear_arith)
            requires
                q.y + q.h <= height,
                0 <= stride,
        ;
        cut_rows_fit(
            pixels@,
            stride,
            4 * q.x,
            n,
            q.y as int,
            q.y + q.h,
        );
        assert(q.y + q.h - q.y == q.h);
        assert(0 <= y * n);
        let rows = q.pixels@.subrange(y * n, y * n + n);
        assert(rows[b] == q.pixels@[y * n + b]);
        assert(y * (4 * q.w) == y * n);
        let at = (q.y + y) * stride + 4 * q.x;
        assert(0 <= (q.y + y) * stride && (q.y + y) * stride + stride <= (q.y + q.h) * stride)
            by (nonlinear_arith)
            requires
                0 <= q.y + y,
                y + 1 <= q.h,
                0 <= stride,
        ;
        assert(pixels@.subrange(at, at + n)[b] == pixels@[at + b]);
    }
}

/// A hidden layer hides, whatever waits. A shown one presents what waits, unless
/// it is a placeholder and there is content; with nothing waiting it follows a
/// new extent, and else does nothing.
pub proof fn layer_does_the_one_thing_needed<F>(
    pending: Option<F>,
    placeholder: bool,
    visible: bool,
    content: bool,
    dirty: bool,
    r: Action<F>,
    committed: bool,
    next: bool,
)
    requires
        call_ensures(decide::<F>, (pending, placeholder, visible, content, dirty), r),
        call_ensures(next_content::<F>, (content, &r, committed, placeholder), next),
    ensures
        r is Hide <==> !visible,
        r matches Action::Present(f) ==> pending == Some(f) && visible,
        r is Present <==> visible && pending is Some && !(placeholder && content),
        r is ReapplyViewport <==> visible && pending is None && dirty,
        !visible ==> !next,
        visible && content ==> next,
        visible && !content ==> (next <==> r is Present && committed && !placeholder),
{
}

/// A layer that loses the GPU starts over on shared memory with an empty picture,
/// for good, and its painter is handed out once. Only a GPU failure does that;
/// only a shared-memory layer is detached when hidden.
pub proof fn lost_gpu_means_shared_memory<P>(
    b: &mut Backend<P>,
    failed: &mut bool,
    painter: Option<P>,
    c: &mut Backend<P>,
    failed2: &mut bool,
    none: Option<P>,
    err: PresentError,
    degrades: bool,
    before: bool,
    after: bool,
)
    requires
        call_ensures(hide_detaches::<P>, (&*old(b),), before),
        call_ensures(degrade::<P>, (b, failed), painter),
        call_ensures(hide_detaches::<P>, (&*final(b),), after),
        *old(c) == *final(b),
        call_ensures(degrade::<P>, (c, failed2), none),
        call_ensures(is_degrading_error, (&err,), degrades),
    ensures
        *final(failed) && after,
        before <==> !(*old(b) is Gpu),
        *old(b) matches Backend::Gpu { painter: p } ==> painter == p,
        *old(b) is Shm ==> painter is None,
        none is None,
        *final(b) matches Backend::Shm { shadow } && shadow.pixels@.len() == 0 && shadow.size.0 == 0
            && shadow.size.1 == 0,
        degrades <==> err is Gpu,
{
}

/// A drawn or leased buffer is the one shown until the next; a pooled one stays
/// with the pool. Without a buffer the frame fails and nothing changes. The end
/// lets go of all of them.
pub proof fn attached_buffer_is_kept<P, B>(
    a: &mut Runner<P, B>,
    drawn: Option<B>,
    r: Result<Present, PresentError>,
    b: &mut Runner<P, B>,
    lease: Option<DmabufLease<B>>,
    s: Result<Present, PresentError>,
    c: &mut Runner<P, B>,
    retired: Option<P>,
    gpu: bool,
    fresh: Runner<P, B>,
)
    requires
        call_ensures(Runner::<P, B>::attach_drawn, (a, drawn), r),
        call_ensures(Runner::<P, B>::attach_leased, (b, lease), s),
        call_ensures(Runner::<P, B>::shutdown, (c,), retired),
        call_ensures(Runner::<P, B>::new, (gpu,), fresh),
    ensures
        r is Ok <==> drawn is Some,
        drawn is Some ==> final(a).current == drawn && r == Ok::<Present, PresentError>(
            Present::Committed,
        ),
        drawn is None ==> *final(a) == *old(a) && r == Err::<Present, PresentError>(
            PresentError::ShmAlloc,
        ),
        s is Ok <==> lease is Some,
        lease matches Some(DmabufLease::OneShot(x)) ==> final(b).current == Some(x),
        lease matches Some(DmabufLease::Pooled) ==> final(b).current is None,
        lease is Some ==> s == Ok::<Present, PresentError>(Present::Committed),
        lease is None ==> *final(b) == *old(b) && s == Err::<Present, PresentError>(
            PresentError::DmabufCreate,
        ),
        final(a).dmabuf_pool == old(a).dmabuf_pool && final(b).dmabuf_pool == old(b).dmabuf_pool,
        final(c).current is None && final(c).dmabuf_pool@.len() == 0,
        old(c).backend matches Backend::Gpu { painter } ==> retired == painter,
        old(c).backend is Shm ==> retired is None,
        fresh.backend is Gpu <==> gpu,
        fresh.has_gpu == gpu && !fresh.gpu_failed && !fresh.has_content && fresh.current is None
            && fresh.dmabuf_pool@.len() == 0,
{
}

/// A placeholder is one opaque pixel, blue first; a texture is shown by its
/// visible part; either fills the layer.
pub proof fn placeholder_and_texture_fill_the_layer<P, B, F>(
    red: u8,
    green: u8,
    blue: u8,
    vps: ViewportState,
    p: ([u8; 4], FrameCommit),
    frame: SharedTexture<F>,
    c: FrameCommit,
)
    requires
        call_ensures(Runner::<P, B>::present_placeholder, (red, green, blue, vps), p),
        call_ensures(Runner::<P, B>::present_dmabuf::<F>, (vps, &frame), c),
    ensures
        p.0@[0] == blue && p.0@[1] == green && p.0@[2] == red && p.0@[3] == 0xff,
        p.1.buf_w == 1 && p.1.buf_h == 1 && p.1.src_w == 1 && p.1.src_h == 1,
        p.1.dst_w == vps.lw && p.1.dst_h == vps.lh,
        c.buf_w == frame.coded.w && c.buf_h == frame.coded.h,
        c.src_w == frame.visible.w && c.src_h == frame.visible.h,
        c.dst_w == vps.lw && c.dst_h == vps.lh,
{
}

/// A software frame goes to the GPU while that works; an extent without area is
/// refused by name; a new layer has nothing waiting.
pub proof fn software_goes_to_the_gpu_while_it_works<F>(
    kind: Kind,
    failed: bool,
    r: Route,
    w: i32,
    h: i32,
    v: Result<(), PresentError>,
    vps: ViewportState,
    visible: bool,
    fresh: LayerActor<F>,
)
    requires
        call_ensures(route_software, (kind, failed), r),
        call_ensures(validate_present_dims, (w, h), v),
        call_ensures(LayerActor::<F>::new, (kind, vps, visible), fresh),
    ensures
        r == Route::Gpu <==> kind == Kind::Gpu && !failed,
        r == Route::Shm <==> kind == Kind::Shm || failed,
        v is Ok <==> w > 0 && h > 0,
        v matches Err(e) ==> e == PresentError::BadDimensions(w, h),
        fresh.kind == kind && !fresh.gpu_failed,
        fresh.state@.pending is None && fresh.state@.visible == visible && fresh.state@.viewport
            == vps,
{
}

/// A window is presented where it may be committed, has a size and a scale; where
/// only the scale of an unmapped one is missing, that is looked for.
pub proof fn next_step_is_what_is_missing(i: Inputs, r: Step)
    requires
        call_ensures(plan, (i,), r),
    ensures
        ({
            let may_commit = i.mapped || i.pending_configure;
            &&& r is Present <==> may_commit && i.scale_known && i.size is Some
            &&& r is DiscoverScale <==> may_commit && !i.mapped && !i.scale_known
            &&& !may_commit ==> r is Wait
        }),
{
}

/// A scale is looked for once, and not at all where it came while the events were
/// still being read.
pub proof fn scale_is_looked_for_once(
    d: ScaleDiscovery,
    asked: ScaleDiscovery,
    known: bool,
    r: (ScaleDiscovery, bool),
    asked2: ScaleDiscovery,
    again: (ScaleDiscovery, bool),
)
    requires
        call_ensures(ScaleDiscovery::request, (d,), asked),
        call_ensures(ScaleDiscovery::after_batch_drained, (asked, known), r),
        call_ensures(ScaleDiscovery::request, (r.0,), asked2),
        call_ensures(ScaleDiscovery::after_batch_drained, (asked2, known), again),
    ensures
        r.1 <==> d != ScaleDiscovery::Spawned && !known,
        r.1 ==> r.0 == ScaleDiscovery::Spawned,
        known ==> !r.1 && !again.1,
        r.1 ==> !again.1,
        d == ScaleDiscovery::Spawned ==> r.0 == ScaleDiscovery::Spawned,
        known && d != ScaleDiscovery::Spawned ==> r.0 == ScaleDiscovery::Idle,
{
}

/// Each side is the compositor's where it gave one; left open, it is the saved
/// one of a floating window and the current one of any other.
pub proof fn open_sides_are_filled_in(
    w: Option<i32>,
    h: Option<i32>,
    cur: Option<WindowSize>,
    saved: Option<WindowSize>,
    mode: WindowMode,
    r: Option<WindowSize>,
)
    requires
        call_ensures(resolve_logical_size, ((w, h), cur, saved, mode), r),
        cur matches Some(s) ==> s.w() > 0 && s.h() > 0,
        saved matches Some(s) ==> s.w() > 0 && s.h() > 0,
    ensures
        ({
            let kept = if mode == WindowMode::Floating {
                saved
            } else {
                cur
            };
            &&& r matches Some(s) ==> {
                &&& w matches Some(x) ==> s.w() == x
                &&& h matches Some(x) ==> s.h() == x
                &&& w is None ==> kept is Some && s.w() == kept->Some_0.w()
                &&& h is None ==> kept is Some && s.h() == kept->Some_0.h()
            }
            &&& r is Some <==> (w is None ==> kept is Some) && (h is None ==> kept is Some) && (
            w matches Some(x) ==> x > 0) && (h matches Some(x) ==> x > 0)
        }),
{
    let kept = if mode == WindowMode::Floating {
        saved
    } else {
        cur
    };
    let a = match w {
        Some(x) => x,
        None => kept->Some_0.w(),
    };
    let b = match h {
        Some(x) => x,
        None => kept->Some_0.h(),
    };
    window_size_sides(a, b, kept->Some_0);
}

/// Only a floating window's size is saved, and it is the one given back.
pub proof fn floating_size_is_saved(
    f: &mut FloatingRestore,
    mode: WindowMode,
    w: i32,
    h: i32,
    u: (),
    saved: Option<WindowSize>,
    empty: FloatingRestore,
    none: Option<WindowSize>,
    made: Option<WindowSize>,
    floats: bool,
)
    requires
        call_ensures(FloatingRestore::record, (f, mode, w, h), u),
        call_ensures(FloatingRestore::size, (*final(f),), saved),
        call_ensures(FloatingRestore::empty, (), empty),
        call_ensures(FloatingRestore::size, (empty,), none),
        call_ensures(WindowSize::new, (w, h), made),
        call_ensures(WindowMode::uses_floating_restore, (mode,), floats),
    ensures
        none is None,
        floats <==> mode == WindowMode::Floating,
        floats ==> saved == made,
        !floats ==> saved == old(f).saved,
        made is Some <==> w > 0 && h > 0,
        made matches Some(s) ==> s.w() == w && s.h() == h,
{
}

/// A guessed scale never takes the place of the compositor's own; a wire value is
/// a scale unless it is zero, and 120 is the unit.
pub proof fn scales_have_their_rank(
    cur: Option<ScaleProvenance>,
    incoming: ScaleProvenance,
    r: bool,
    raw: u32,
    s: Option<Scale120>,
    unit: Scale120,
    fresh: WindowState,
    known: Option<Scale120>,
)
    requires
        call_ensures(scale_displaces, (cur, incoming), r),
        call_ensures(Scale120::from_wire, (raw,), s),
        call_ensures(Scale120::unit, (), unit),
        call_ensures(WindowState::new, (), fresh),
        call_ensures(WindowState::known_scale, (&fresh,), known),
    ensures
        !r <==> cur == Some(ScaleProvenance::Authoritative) && incoming
            == ScaleProvenance::Provisional,
        s is Some <==> raw != 0,
        s matches Some(x) ==> x.raw() == raw,
        unit.raw() == 120,
        known is None && fresh.size is None,
{
}

/// Whatever a layer is told, it stays painted as it is: on the GPU or not, failed
/// or not.
pub proof fn layer_keeps_its_painter<F>(
    a: &mut LayerActor<F>,
    b: &mut LayerActor<F>,
    c: &mut LayerActor<F>,
    d: &mut LayerActor<F>,
    e: &mut LayerActor<F>,
    visible: bool,
    vps: ViewportState,
    red: u8,
    green: u8,
    blue: u8,
    frame: SharedTexture<F>,
    r: Result<Present, PresentError>,
    u: (),
)
    requires
        call_ensures(LayerActor::<F>::set_visible, (a, visible), u),
        call_ensures(LayerActor::<F>::resize, (b, vps.lw, vps.lh, vps.pw, vps.ph), u),
        call_ensures(LayerActor::<F>::request_placeholder, (c, red, green, blue), u),
        call_ensures(LayerActor::<F>::present_dmabuf, (d, frame), r),
        call_ensures(LayerActor::<F>::shutdown, (e,), u),
    ensures
        final(a).kind == old(a).kind && final(a).gpu_failed == old(a).gpu_failed,
        final(b).kind == old(b).kind && final(b).gpu_failed == old(b).gpu_failed,
        final(c).kind == old(c).kind && final(c).gpu_failed == old(c).gpu_failed,
        final(d).kind == old(d).kind && final(d).gpu_failed == old(d).gpu_failed,
        final(e).kind == old(e).kind && final(e).gpu_failed == old(e).gpu_failed,
{
}

} // verus!
