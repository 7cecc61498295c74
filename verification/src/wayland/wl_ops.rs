//! Surface operations of the platform: what each does to a surface's record and
//! to its layer.

use vstd::prelude::*;

use crate::abi::JfnRect;
use crate::wayland::layer::Present;
use crate::wayland::layer::PresentError;
use crate::wayland::layer::SharedTexture;
use crate::wayland::layer::ViewportState;
use crate::wayland::layer_actor::software_taken;
use crate::wayland::layer_actor::Kind;
use crate::wayland::layer_actor::LayerActor;
use crate::wayland::layer_actor::LayerView;
use crate::wayland::window_state::PublishedExtent;

verus! {

/// One surface of the browser.
pub struct PlatformSurface<F> {
    /// Its compositor surface exists.
    pub has_surface: bool,
    pub visible: bool,
    /// Its content was taken off, so the next frame is shown whatever its size.
    pub null_attached: bool,
    pub actor: Option<LayerActor<F>>,
}

/// The mailbox of a surface's layer.
pub open spec fn mailbox<F>(s: PlatformSurface<F>) -> Option<LayerView<F>> {
    match s.actor {
        Some(a) => Some(a.state@),
        None => None,
    }
}

/// A layer keeps its painter, and the word that it failed.
pub open spec fn same_painter<F>(a: PlatformSurface<F>, b: PlatformSurface<F>) -> bool {
    match (a.actor, b.actor) {
        (Some(x), Some(y)) => x.kind == y.kind && x.gpu_failed == y.gpu_failed,
        (None, None) => true,
        _ => false,
    }
}

/// The extent of the window, or that of the frame before it is known.
pub open spec fn extent(e: Option<PublishedExtent>, w: i32, h: i32) -> ViewportState {
    match e {
        Some(e) => ViewportState {
            lw: e.logical.w(),
            lh: e.logical.h(),
            pw: e.physical.w(),
            ph: e.physical.h(),
        },
        None => ViewportState { lw: w, lh: h, pw: w, ph: h },
    }
}

pub fn extent_or(e: &Option<PublishedExtent>, w: i32, h: i32) -> (r: ViewportState)
    ensures
        r == extent(*e, w, h),
{
    match e {
        Some(e) => ViewportState {
            lw: e.logical.w(),
            lh: e.logical.h(),
            pw: e.physical.w(),
            ph: e.physical.h(),
        },
        None => ViewportState { lw: w, lh: h, pw: w, ph: h },
    }
}

/// How a new layer is painted: on the GPU where that is wanted and there is one.
pub fn layer_kind(use_gpu_paint: bool, has_gpu: bool) -> (r: Kind)
    ensures
        r == (if use_gpu_paint && has_gpu {
            Kind::Gpu
        } else {
            Kind::Shm
        }),
{
    if use_gpu_paint && has_gpu {
        Kind::Gpu
    } else {
        Kind::Shm
    }
}

/// A layer's mailbox after it was sized; without physical pixels it stays.
pub open spec fn sized<F>(v: LayerView<F>, e: ViewportState) -> LayerView<F> {
    if e.pw <= 0 || e.ph <= 0 {
        v
    } else {
        v.resized(e)
    }
}

impl<F> PlatformSurface<F> {
    pub fn new() -> (s: Self)
        ensures
            !s.has_surface,
            !s.visible,
            !s.null_attached,
            s.actor is None,
    {
        PlatformSurface { has_surface: false, visible: false, null_attached: false, actor: None }
    }

    /// Shows or hides the surface. A surface shown on shared memory gets a
    /// placeholder in the background color; on the GPU the swapchain owns the
    /// buffers and a placeholder would fight it. Returns whether the root has to
    /// present.
    pub fn surface_set_visible(
        &mut self,
        visible: bool,
        use_gpu_paint: bool,
        bg_r: u8,
        bg_g: u8,
        bg_b: u8,
    ) -> (present: bool)
        ensures
            present == (old(self).visible != visible && old(self).has_surface),
            final(self).visible == visible,
            final(self).has_surface == old(self).has_surface,
            same_painter(*old(self), *final(self)),
            !present ==> final(self).null_attached == old(self).null_attached && mailbox(
                *final(self),
            ) == mailbox(*old(self)),
            present ==> {
                &&& final(self).null_attached == !visible
                &&& match (mailbox(*old(self)), mailbox(*final(self))) {
                    (Some(a), Some(b)) => b == (if visible && !use_gpu_paint {
                        a.with_visible(true).with_placeholder(bg_r, bg_g, bg_b)
                    } else {
                        a.with_visible(visible)
                    }),
                    (None, None) => true,
                    _ => false,
                }
            },
    {
        if self.visible == visible {
            return false;
        }
        self.visible = visible;
        if !self.has_surface {
            return false;
        }
        match self.actor.take() {
            Some(actor) => {
                let mut actor = actor;
                actor.set_visible(visible);
                if visible && !use_gpu_paint {
                    actor.request_placeholder(bg_r, bg_g, bg_b);
                }
                self.actor = Some(actor);
            },
            None => {},
        }
        self.null_attached = !visible;
        true
    }

    /// Whether a shared texture is shown: on a visible surface, where the
    /// compositor takes dmabufs, and not while its size is far from the
    /// window's, unless there is nothing on the surface.
    pub open spec fn takes_dmabuf(&self, dmabuf_supported: bool, in_tolerance: bool) -> bool {
        self.has_surface && self.visible && dmabuf_supported && (in_tolerance
            || self.null_attached)
    }

    /// Hands a shared texture to the layer.
    pub fn surface_present(
        &mut self,
        frame: SharedTexture<F>,
        dmabuf_supported: bool,
        in_tolerance: bool,
        window: &Option<PublishedExtent>,
    ) -> (r: Result<Present, PresentError>)
        ensures
            final(self).has_surface == old(self).has_surface,
            same_painter(*old(self), *final(self)),
            final(self).visible == old(self).visible,
            !old(self).takes_dmabuf(dmabuf_supported, in_tolerance) ==> r == Ok::<
                Present,
                PresentError,
            >(Present::Skipped) && *final(self) == *old(self),
            old(self).takes_dmabuf(dmabuf_supported, in_tolerance) ==> {
                &&& !final(self).null_attached
                &&& match (mailbox(*old(self)), mailbox(*final(self))) {
                    (Some(a), Some(b)) => {
                        let ready = sized(
                            a.with_visible(true),
                            extent(*window, frame.coded.w, frame.coded.h),
                        );
                        if frame.coded.w <= 0 || frame.coded.h <= 0 {
                            &&& r == Err::<Present, PresentError>(
                                PresentError::BadDimensions(frame.coded.w, frame.coded.h),
                            )
                            &&& b == ready
                        } else {
                            &&& r == Ok::<Present, PresentError>(Present::Committed)
                            &&& b == ready.with_dmabuf(frame)
                        }
                    },
                    (None, None) => r == Ok::<Present, PresentError>(Present::Skipped),
                    _ => false,
                }
            },
    {
        if !self.has_surface || !self.visible || !dmabuf_supported {
            return Ok(Present::Skipped);
        }
        if !in_tolerance && !self.null_attached {
            return Ok(Present::Skipped);
        }
        self.null_attached = false;
        let e = extent_or(window, frame.coded.w, frame.coded.h);
        match self.actor.take() {
            Some(actor) => {
                let mut actor = actor;
                actor.set_visible(true);
                actor.resize(e.lw, e.lh, e.pw, e.ph);
                let r = actor.present_dmabuf(frame);
                self.actor = Some(actor);
                r
            },
            None => Ok(Present::Skipped),
        }
    }

    /// Hands a software frame to the layer. A frame without area is refused;
    /// a hidden surface takes none.
    pub fn surface_present_software(
        &mut self,
        dirty: &[JfnRect],
        pixels: &[u8],
        w: i32,
        h: i32,
        window: &Option<PublishedExtent>,
    ) -> (r: Result<Present, PresentError>)
        ensures
            final(self).has_surface == old(self).has_surface,
            same_painter(*old(self), *final(self)),
            final(self).visible == old(self).visible,
            w <= 0 || h <= 0 ==> r == Err::<Present, PresentError>(
                PresentError::BadDimensions(w, h),
            ) && *final(self) == *old(self),
            w > 0 && h > 0 && !(old(self).has_surface && old(self).visible) ==> r == Ok::<
                Present,
                PresentError,
            >(Present::Skipped) && *final(self) == *old(self),
            w > 0 && h > 0 && old(self).has_surface && old(self).visible ==> {
                &&& !final(self).null_attached
                &&& match (old(self).actor, final(self).actor) {
                    (Some(a), Some(b)) => (r, b.state@) == software_taken(
                        a.kind,
                        a.gpu_failed,
                        sized(a.state@.with_visible(true), extent(*window, w, h)),
                        pixels@,
                        w,
                        h,
                        dirty@,
                    ),
                    (None, None) => r == Ok::<Present, PresentError>(Present::Skipped),
                    _ => false,
                }
            },
    {
        if w <= 0 || h <= 0 {
            return Err(PresentError::BadDimensions(w, h));
        }
        if !self.has_surface || !self.visible {
            return Ok(Present::Skipped);
        }
        self.null_attached = false;
        let e = extent_or(window, w, h);
        match self.actor.take() {
            Some(actor) => {
                let mut actor = actor;
                actor.set_visible(true);
                actor.resize(e.lw, e.lh, e.pw, e.ph);
                let r = actor.present_software(pixels, w, h, dirty);
                self.actor = Some(actor);
                r
            },
            None => Ok(Present::Skipped),
        }
    }

    /// The window has a new extent.
    pub fn on_configure(&mut self, e: &PublishedExtent)
        ensures
            final(self).has_surface == old(self).has_surface,
            same_painter(*old(self), *final(self)),
            final(self).visible == old(self).visible,
            final(self).null_attached == old(self).null_attached,
            match (mailbox(*old(self)), mailbox(*final(self))) {
                (Some(a), Some(b)) => b == sized(a, extent(Some(*e), 0, 0)),
                (None, None) => true,
                _ => false,
            },
    {
        match self.actor.take() {
            Some(actor) => {
                let mut actor = actor;
                actor.resize(e.logical.w(), e.logical.h(), e.physical.w(), e.physical.h());
                self.actor = Some(actor);
            },
            None => {},
        }
    }
}

/// The layers a new order names; a null surface is no layer.
pub open spec fn named_layers(ordered: Seq<u64>) -> Seq<u64>
    decreases ordered.len(),
{
    if ordered.len() == 0 {
        Seq::empty()
    } else {
        let before = named_layers(ordered.drop_last());
        if ordered.last() == 0 {
            before
        } else {
            before.push(ordered.last())
        }
    }
}

/// The stack without one surface.
pub open spec fn without(stack: Seq<u64>, id: u64) -> Seq<u64>
    decreases stack.len(),
{
    if stack.len() == 0 {
        Seq::empty()
    } else {
        let before = without(stack.drop_last(), id);
        if stack.last() == id {
            before
        } else {
            before.push(stack.last())
        }
    }
}

/// The surfaces in z-order, bottom to top. A surface is known by a number; 0 is
/// the null surface.
pub struct SurfaceStack {
    pub stack: Vec<u64>,
    pub was_fullscreen: bool,
}

impl SurfaceStack {
    pub fn new() -> (s: SurfaceStack)
        ensures
            s.stack@.len() == 0,
            !s.was_fullscreen,
    {
        SurfaceStack { stack: Vec::new(), was_fullscreen: false }
    }

    /// The layers of the stack, without null surfaces.
    fn layers(&self) -> (r: Vec<u64>)
        ensures
            r@ == named_layers(self.stack@),
    {
        let mut r: Vec<u64> = Vec::new();
        let mut i: usize = 0;
        assert(self.stack@.take(0) =~= Seq::empty());
        while i < self.stack.len()
            invariant
                i <= self.stack@.len(),
                r@ == named_layers(self.stack@.take(i as int)),
            decreases self.stack@.len() - i,
        {
            assert(self.stack@.take(i + 1).drop_last() =~= self.stack@.take(i as int));
            if self.stack[i] != 0 {
                r.push(self.stack[i]);
            }
            i += 1;
        }
        assert(self.stack@.take(self.stack@.len() as int) =~= self.stack@);
        r
    }

    /// Takes a new z-order. Returns the layers the scene is to stack.
    pub fn restack(&mut self, ordered: &[u64]) -> (r: Vec<u64>)
        ensures
            final(self).stack@ == ordered@,
            final(self).was_fullscreen == old(self).was_fullscreen,
            r@ == named_layers(ordered@),
    {
        self.stack = vstd::slice::slice_to_vec(ordered);
        self.layers()
    }

    /// A surface is about to be freed: it leaves the stack before its objects
    /// are torn down.
    pub fn free_surface(&mut self, id: u64)
        ensures
            final(self).stack@ == without(old(self).stack@, id),
            final(self).was_fullscreen == old(self).was_fullscreen,
    {
        let mut kept: Vec<u64> = Vec::new();
        let mut i: usize = 0;
        assert(self.stack@.take(0) =~= Seq::empty());
        while i < self.stack.len()
            invariant
                i <= self.stack@.len(),
                *self == *old(self),
                kept@ == without(self.stack@.take(i as int), id),
            decreases self.stack@.len() - i,
        {
            assert(self.stack@.take(i + 1).drop_last() =~= self.stack@.take(i as int));
            if self.stack[i] != id {
                kept.push(self.stack[i]);
            }
            i += 1;
        }
        assert(self.stack@.take(self.stack@.len() as int) =~= self.stack@);
        self.stack = kept;
    }

    /// The window was configured. Returns the layers that take its extent, none
    /// while it has no extent yet.
    pub fn on_configure(&mut self, fullscreen: bool, window: &Option<PublishedExtent>) -> (r: Vec<
        u64,
    >)
        ensures
            final(self).stack@ == old(self).stack@,
            *window is None ==> r@.len() == 0 && *final(self) == *old(self),
            *window is Some ==> r@ == named_layers(old(self).stack@)
                && final(self).was_fullscreen == fullscreen,
    {
        if window.is_none() {
            return Vec::new();
        }
        self.was_fullscreen = fullscreen;
        self.layers()
    }
}

/// A freed surface is not stacked any more, every other one is still there, and
/// no null surface is ever handed to the scene.
pub proof fn freed_surface_leaves_the_stack(stack: Seq<u64>, freed: u64, id: u64)
    ensures
        without(stack, freed).contains(id) <==> (stack.contains(id) && id != freed),
        named_layers(stack).contains(id) <==> (stack.contains(id) && id != 0),
    decreases stack.len(),
{
    if stack.len() > 0 {
        let front = stack.drop_last();
        freed_surface_leaves_the_stack(front, freed, id);
        assert(stack =~= front.push(stack.last()));
        push_contains(front, stack.last(), id);
        push_contains(without(front, freed), stack.last(), id);
        push_contains(named_layers(front), stack.last(), id);
    }
}

proof fn push_contains(s: Seq<u64>, last: u64, id: u64)
    ensures
        s.push(last).contains(id) <==> (s.contains(id) || last == id),
{
    let t = s.push(last);
    if s.contains(id) {
        let i = choose|i: int| 0 <= i < s.len() && s[i] == id;
        assert(t[i] == id);
    }
    if last == id {
        assert(t[s.len() as int] == id);
    }
    if t.contains(id) {
        let i = choose|i: int| 0 <= i < t.len() && t[i] == id;
        if i < s.len() {
            assert(s[i] == id);
        }
    }
}

} // verus!
