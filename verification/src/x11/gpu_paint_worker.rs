//! X11 GPU presenter: the browser's paint callback only leaves the latest
//! frame here; painting happens on a worker. If the GPU path fails the worker
//! is marked failed for good and callers fall back to shared memory.

use vstd::prelude::*;

use crate::abi::min_int;
use crate::abi::JfnRect;
use crate::wayland::layer::SharedTexture;

verus! {

/// The latest frame.
pub enum PendingFrame<F> {
    Pixels { pixels: Vec<u8>, dirty: Vec<JfnRect>, width: u32, height: u32, stride: u32 },
    Dmabuf(SharedTexture<F>),
}

impl<F> PendingFrame<F> {
    /// A texture has no negative extent.
    pub open spec fn wf(self) -> bool {
        self matches PendingFrame::Dmabuf(f) ==> f.coded.w >= 0 && f.coded.h >= 0
    }

    pub open spec fn extent(self) -> (u32, u32) {
        match self {
            PendingFrame::Pixels { width, height, .. } => (width, height),
            PendingFrame::Dmabuf(f) => (f.coded.w as u32, f.coded.h as u32),
        }
    }

    /// The size a painter is made for.
    pub fn size(&self) -> (r: (u32, u32))
        requires
            self.wf(),
        ensures
            r == self.extent(),
    {
        match self {
            PendingFrame::Pixels { width, height, .. } => (*width, *height),
            PendingFrame::Dmabuf(f) => (f.coded.w as u32, f.coded.h as u32),
        }
    }
}

pub struct X11GpuPaintWorker<F> {
    pub pending: Option<PendingFrame<F>>,
    pub target_size: (u32, u32),
    pub visible: bool,
    pub shutdown: bool,
    pub failed: bool,
}

/// Bytes of a row, as far as 32 bits go.
pub open spec fn row_bytes(width: u32) -> int {
    min_int(4 * width, u32::MAX as int)
}

/// What the worker does next.
pub enum WorkerStep<F> {
    /// Nothing to do yet.
    Wait,
    /// The end.
    Stop,
    /// A frame for a hidden surface is dropped.
    Drop,
    /// Paint this frame on a surface of this size.
    Paint { frame: PendingFrame<F>, target_size: (u32, u32) },
}

impl<F> X11GpuPaintWorker<F> {
    pub fn new(size: (u32, u32), visible: bool) -> (w: Self)
        ensures
            w == (X11GpuPaintWorker::<F> {
                pending: None,
                target_size: size,
                visible,
                shutdown: false,
                failed: false,
            }),
    {
        X11GpuPaintWorker {
            pending: None,
            target_size: size,
            visible,
            shutdown: false,
            failed: false,
        }
    }

    pub fn failed(&self) -> (r: bool)
        ensures
            r == self.failed,
    {
        self.failed
    }

    /// A size without pixels changes nothing.
    pub fn resize(&mut self, size: (u32, u32))
        ensures
            *final(self) == (if size.0 == 0 || size.1 == 0 {
                *old(self)
            } else {
                X11GpuPaintWorker { target_size: size, ..*old(self) }
            }),
    {
        if size.0 == 0 || size.1 == 0 {
            return ;
        }
        self.target_size = size;
    }

    pub fn set_visible(&mut self, visible: bool)
        ensures
            *final(self) == (X11GpuPaintWorker { visible, ..*old(self) }),
    {
        self.visible = visible;
    }

    /// Leaves a frame of pixels; only the latest is kept. Returns whether it was
    /// taken: not after a failure, and not with fewer bytes than it claims.
    pub fn submit_frame(
        &mut self,
        pixels: &[u8],
        width: u32,
        height: u32,
        dirty: Vec<JfnRect>,
    ) -> (taken: bool)
        ensures
            taken == (!old(self).failed && height * row_bytes(width) <= pixels@.len()),
            !taken ==> *final(self) == *old(self),
            taken ==> {
                &&& final(self).target_size == old(self).target_size
                &&& final(self).visible == old(self).visible
                &&& final(self).shutdown == old(self).shutdown
                &&& final(self).failed == old(self).failed
                &&& final(self).pending matches Some(
                    PendingFrame::Pixels { pixels: p, dirty: d, width: w, height: h, stride },
                )
                &&& p@ == pixels@.take(height * row_bytes(width))
                &&& d == dirty
                &&& w == width
                &&& h == height
                &&& stride == row_bytes(width)
            },
    {
        if self.failed {
            return false;
        }
        let stride: u32 = match width.checked_mul(4) {
            Some(v) => v,
            None => u32::MAX,
        };
        let len: usize = match (height as usize).checked_mul(stride as usize) {
            Some(v) => v,
            None => {
                assert(pixels@.len() == pixels.len());
                return false;
            },
        };
        if pixels.len() < len {
            return false;
        }
        assert(pixels@.subrange(0, len as int) =~= pixels@.take(len as int));
        let copied = vstd::slice::slice_to_vec(vstd::slice::slice_subrange(pixels, 0, len));
        self.pending = Some(
            PendingFrame::Pixels { pixels: copied, dirty, width, height, stride },
        );
        true
    }

    /// Leaves a shared texture; a superseded one is dropped.
    pub fn submit_dmabuf(&mut self, frame: SharedTexture<F>) -> (taken: bool)
        ensures
            taken == !old(self).failed,
            *final(self) == (if taken {
                X11GpuPaintWorker { pending: Some(PendingFrame::Dmabuf(frame)), ..*old(self) }
            } else {
                *old(self)
            }),
    {
        if self.failed {
            return false;
        }
        self.pending = Some(PendingFrame::Dmabuf(frame));
        true
    }

    pub fn shutdown(&mut self)
        ensures
            *final(self) == (X11GpuPaintWorker { shutdown: true, pending: None, ..*old(self) }),
    {
        self.shutdown = true;
        self.pending = None;
    }

    /// Takes the next piece of work.
    pub fn next(&mut self) -> (step: WorkerStep<F>)
        ensures
            *final(self) == (X11GpuPaintWorker { pending: None, ..*old(self) }),
            old(self).shutdown ==> step is Stop,
            !old(self).shutdown ==> match old(self).pending {
                None => step is Wait,
                Some(f) => if old(self).visible {
                    step == (WorkerStep::Paint { frame: f, target_size: old(self).target_size })
                } else {
                    step is Drop
                },
            },
    {
        let frame = self.pending.take();
        if self.shutdown {
            return WorkerStep::Stop;
        }
        match frame {
            None => WorkerStep::Wait,
            Some(frame) => if self.visible {
                WorkerStep::Paint { frame, target_size: self.target_size }
            } else {
                WorkerStep::Drop
            },
        }
    }

    /// A frame could not be painted. Returns whether the worker ends. Without a
    /// painter, and after failing to push pixels, it does. A shared texture that
    /// fails is only lost: with the browser producing them there is nothing to
    /// fall back to.
    pub fn paint_failed(&mut self, painter_missing: bool, dmabuf: bool) -> (ends: bool)
        ensures
            ends == (painter_missing || !dmabuf),
            *final(self) == (X11GpuPaintWorker {
                failed: old(self).failed || ends,
                ..*old(self)
            }),
    {
        if painter_missing || !dmabuf {
            self.failed = true;
            true
        } else {
            false
        }
    }
}

/// What the worker's thread keeps from frame to frame.
#[derive(Clone, Copy, PartialEq, Eq, Debug)]
pub struct Painting {
    /// There is a painter.
    pub painter: bool,
    /// The size the window was last asked to have.
    pub last_configured: Option<(u32, u32)>,
}

/// A window to be given the size of a texture.
#[derive(Clone, Copy, PartialEq, Eq, Structural, Debug)]
pub struct SizeRequest {
    pub window: u32,
    pub w: u32,
    pub h: u32,
}

/// What is done with a frame, in this order: the painter is shown and resized,
/// the window is configured, the frame is pushed.
#[derive(Clone, Copy, PartialEq, Eq, Debug)]
pub struct PaintPlan {
    pub resize: (u32, u32),
    pub configure: Option<SizeRequest>,
}

/// The window's size to ask for before a frame is pushed, so that the window's
/// extent and the swapchain's stay matched: that of a shared texture, unless it
/// was asked for last. Frames of pixels ask for none.
pub open spec fn size_request<F>(
    frame: PendingFrame<F>,
    last: Option<(u32, u32)>,
    window: Option<u32>,
    connected: bool,
) -> Option<SizeRequest> {
    match (frame, window) {
        (PendingFrame::Dmabuf(_), Some(window)) => if connected && last != Some(frame.extent()) {
            Some(SizeRequest { window, w: frame.extent().0, h: frame.extent().1 })
        } else {
            None
        },
        _ => None,
    }
}

impl Painting {
    pub fn new() -> (p: Painting)
        ensures
            p == (Painting { painter: false, last_configured: None }),
    {
        Painting { painter: false, last_configured: None }
    }

    /// The size to make a painter for, where there is none yet: that of the
    /// first frame to be painted.
    pub fn wants_painter<F>(&self, frame: &PendingFrame<F>) -> (r: Option<(u32, u32)>)
        requires
            frame.wf(),
        ensures
            r == (if self.painter {
                None
            } else {
                Some(frame.extent())
            }),
    {
        if self.painter {
            None
        } else {
            Some(frame.size())
        }
    }

    /// Plans a frame. `made` says whether a painter could be made where one was
    /// wanted; without one there is no plan, and nothing is remembered.
    /// `window` is the window drawn to, where it is one of this server's, and
    /// `connected` says whether there is a connection to configure it over. A
    /// size is remembered only where it is asked for.
    pub fn plan<F>(
        &mut self,
        frame: &PendingFrame<F>,
        target_size: (u32, u32),
        made: bool,
        window: Option<u32>,
        connected: bool,
    ) -> (r: Option<PaintPlan>)
        requires
            frame.wf(),
        ensures
            r is Some <==> old(self).painter || made,
            match r {
                Some(plan) => {
                    &&& plan.resize == target_size
                    &&& plan.configure == size_request(
                        *frame,
                        old(self).last_configured,
                        window,
                        connected,
                    )
                    &&& final(self).painter
                    &&& final(self).last_configured == (if plan.configure is Some {
                        Some(frame.extent())
                    } else {
                        old(self).last_configured
                    })
                },
                None => *final(self) == *old(self),
            },
    {
        if !self.painter && !made {
            return None;
        }
        self.painter = true;
        let mut configure: Option<SizeRequest> = None;
        if let PendingFrame::Dmabuf(_) = frame {
            if let Some(window) = window {
                let size = frame.size();
                if needs_configure(self.last_configured, size) && connected {
                    configure = Some(SizeRequest { window, w: size.0, h: size.1 });
                    self.last_configured = Some(size);
                }
            }
        }
        Some(PaintPlan { resize: target_size, configure })
    }

    /// The thread ends. Returns whether there is a painter to shut down.
    pub fn end(&mut self) -> (painter: bool)
        ensures
            painter == old(self).painter,
            *final(self) == (Painting { painter: false, ..*old(self) }),
    {
        let painter = self.painter;
        self.painter = false;
        painter
    }
}

/// A window is asked for a size no more than once in a row: a texture of the size
/// asked for last asks for nothing, whatever the painter and the connection.
pub proof fn no_size_is_asked_for_twice<F>(
    first: PendingFrame<F>,
    second: PendingFrame<F>,
    last: Option<(u32, u32)>,
    window: Option<u32>,
    connected: bool,
)
    requires
        size_request(first, last, window, true) is Some,
        second.extent() == first.extent(),
    ensures
        size_request(second, Some(first.extent()), window, connected) is None,
{
}

/// Whether a window has to be sized for a shared texture before it is pushed,
/// so that the window's extent and the swapchain's stay matched.
pub fn needs_configure(last: Option<(u32, u32)>, size: (u32, u32)) -> (r: bool)
    ensures
        r == (last != Some(size)),
{
    match last {
        Some(l) => l.0 != size.0 || l.1 != size.1,
        None => true,
    }
}

} // verus!
