//! The X11 platform: what it is, how it paints, and what it takes of a frame.

use vstd::prelude::*;

use crate::abi::max_i32;
use crate::abi::max_int;
use crate::abi::FrameSize;
use crate::abi::WindowDecorations;
use crate::wayland::layer::DmabufPlane;
use crate::wayland::layer::SharedTexture;
use crate::x11::x11_state::ParentSnapshot;
use crate::x11::x11_state::X11State;

verus! {

/// The paint tier a user can ask for.
#[derive(Clone, Copy, PartialEq, Eq, Structural, Debug)]
pub enum X11PaintOverride {
    Dmabuf,
    Gpu,
    Shm,
}

/// The resolved tier: a GPU device or not, shared textures or not.
#[derive(Clone, Copy, PartialEq, Eq, Structural, Debug)]
pub struct PaintTier {
    pub gpu: bool,
    pub use_dmabuf: bool,
}

pub open spec fn tier_of(
    requested: Option<X11PaintOverride>,
    gpu: bool,
    imports: bool,
    produces: bool,
) -> PaintTier {
    let gpu_used = requested != Some(X11PaintOverride::Shm) && gpu;
    PaintTier {
        gpu: gpu_used,
        use_dmabuf: gpu_used && (requested is None || requested == Some(X11PaintOverride::Dmabuf))
            && imports && produces,
    }
}

/// The name a tier resolves to.
pub open spec fn tier_name(t: PaintTier) -> X11PaintOverride {
    if t.use_dmabuf {
        X11PaintOverride::Dmabuf
    } else if t.gpu {
        X11PaintOverride::Gpu
    } else {
        X11PaintOverride::Shm
    }
}

/// Whether a GPU device has to be opened at all.
pub fn wants_gpu(requested: Option<X11PaintOverride>) -> (r: bool)
    ensures
        r == (requested != Some(X11PaintOverride::Shm)),
{
    !matches!(requested, Some(X11PaintOverride::Shm))
}

/// Resolves a preference down the chain from shared textures over GPU upload to
/// shared memory. The request only picks the entry tier; an unusable tier
/// degrades to the next. Importing and producing are two independent halves of
/// shared textures. Returns also what to warn of: the tier a request ended at,
/// where that is another.
pub fn resolve_tier(
    requested: Option<X11PaintOverride>,
    gpu: bool,
    imports: bool,
    produces: bool,
) -> (r: (PaintTier, Option<X11PaintOverride>))
    ensures
        r.0 == tier_of(requested, gpu, imports, produces),
        r.1 == (if requested is Some && requested != Some(tier_name(r.0)) {
            Some(tier_name(r.0))
        } else {
            None
        }),
{
    let want_dmabuf = matches!(requested, None | Some(X11PaintOverride::Dmabuf));
    let gpu_used = wants_gpu(requested) && gpu;
    let use_dmabuf = gpu_used && want_dmabuf && imports && produces;
    let name = if use_dmabuf {
        X11PaintOverride::Dmabuf
    } else if gpu_used {
        X11PaintOverride::Gpu
    } else {
        X11PaintOverride::Shm
    };
    let warn = match requested {
        Some(req) => if req != name {
            Some(name)
        } else {
            None
        },
        None => None,
    };
    (PaintTier { gpu: gpu_used, use_dmabuf }, warn)
}

/// A tier's name for the log.
pub fn paint_name(mode: X11PaintOverride) -> (r: &'static str)
    ensures
        r@ == match mode {
            X11PaintOverride::Dmabuf => "dmabuf"@,
            X11PaintOverride::Gpu => "gpu"@,
            X11PaintOverride::Shm => "shm"@,
        },
{
    match mode {
        X11PaintOverride::Dmabuf => "dmabuf",
        X11PaintOverride::Gpu => "gpu",
        X11PaintOverride::Shm => "shm",
    }
}

/// A request is never exceeded, and a tier is refused only when a later one is
/// all there is.
pub proof fn tier_degrades_only(
    requested: Option<X11PaintOverride>,
    gpu: bool,
    imports: bool,
    produces: bool,
)
    ensures
        ({
            let t = tier_of(requested, gpu, imports, produces);
            &&& t.use_dmabuf ==> t.gpu
            &&& requested == Some(X11PaintOverride::Shm) ==> tier_name(t) == X11PaintOverride::Shm
            &&& requested == Some(X11PaintOverride::Gpu) ==> !t.use_dmabuf && t.gpu == gpu
            &&& requested is None && gpu && imports && produces ==> t.use_dmabuf
        }),
{
}

/// Pixel formats of a shared texture.
#[derive(Clone, Copy, PartialEq, Eq, Structural, Debug)]
pub enum ColorType {
    Bgra8888,
    Rgba8888,
    Other,
}

/// A painted frame as the browser describes it. `planes` are those it has room
/// for; `plane_count` says how many it uses.
pub struct AcceleratedPaint<F> {
    pub plane_count: i32,
    pub planes: Vec<DmabufPlane<F>>,
    pub format: ColorType,
    pub coded: FrameSize,
    pub visible: FrameSize,
    pub modifier: u64,
}

/// Whether a frame can be taken over.
pub open spec fn paint_ok<F>(p: AcceleratedPaint<F>) -> bool {
    &&& p.plane_count >= 1
    &&& p.planes@.len() >= 1
    &&& p.format != ColorType::Other
    &&& p.coded.w > 0
    &&& p.coded.h > 0
}

/// Takes over a frame with every memory plane its modifier uses; some modifiers
/// add an auxiliary plane beyond the color plane.
pub fn to_dmabuf_frame<F>(p: AcceleratedPaint<F>) -> (r: Option<(SharedTexture<F>, ColorType)>)
    ensures
        r is Some <==> paint_ok(p),
        r matches Some(v) ==> {
            &&& v.1 == p.format
            &&& v.0.coded == p.coded
            &&& v.0.visible == (FrameSize {
                w: max_int(p.visible.w as int, 0) as i32,
                h: max_int(p.visible.h as int, 0) as i32,
            })
            &&& v.0.modifier == p.modifier
            &&& v.0.planes@ == (if p.plane_count <= p.planes@.len() {
                p.planes@.take(p.plane_count as int)
            } else {
                p.planes@
            })
        },
{
    if p.plane_count < 1 || p.format == ColorType::Other || p.coded.w <= 0 || p.coded.h <= 0
        || p.planes.len() < 1 {
        return None;
    }
    let visible = FrameSize { w: max_i32(p.visible.w, 0), h: max_i32(p.visible.h, 0) };
    let n: usize = p.plane_count as usize;
    let mut planes = p.planes;
    let ghost all = planes@;
    if n < planes.len() {
        planes.truncate(n);
    }
    assert(planes@ =~= (if p.plane_count <= all.len() {
        all.take(p.plane_count as int)
    } else {
        all
    }));
    Some((SharedTexture { coded: p.coded, visible, modifier: p.modifier, planes }, p.format))
}

/// The X11 backend.
pub struct X11Platform;

impl X11Platform {
    /// X11 windows are decorated by the WM: client-side decorations are not
    /// offered, and a request for them means the server's.
    pub fn resolve_window_decorations(
        &self,
        configured: Option<WindowDecorations>,
        default: WindowDecorations,
    ) -> (r: WindowDecorations)
        ensures
            r == ({
                let asked = match configured {
                    Some(d) => d,
                    None => default,
                };
                if asked == WindowDecorations::Csd {
                    WindowDecorations::Server
                } else {
                    asked
                }
            }),
    {
        let asked = match configured {
            Some(d) => d,
            None => default,
        };
        match asked {
            WindowDecorations::Csd => WindowDecorations::Server,
            other => other,
        }
    }

    pub fn window_decorations_supported(&self) -> (r: bool)
        ensures
            r,
    {
        true
    }

    /// There is no clipboard to read.
    pub fn clipboard_text_supported(&self) -> (r: bool)
        ensures
            !r,
    {
        false
    }

    pub fn shared_texture_supported(&self, tier: Option<PaintTier>) -> (r: bool)
        ensures
            r == (tier matches Some(t) && t.use_dmabuf),
    {
        match tier {
            Some(t) => t.use_dmabuf,
            None => false,
        }
    }

    /// Whether mpv has to be told of a fullscreen change: not without a player,
    /// and not of what it already is.
    pub fn set_fullscreen(&self, fullscreen: bool, player: Option<bool>) -> (tell: bool)
        ensures
            tell == (player matches Some(now) && now != fullscreen),
    {
        match player {
            Some(now) => now != fullscreen,
            None => false,
        }
    }
}

/// The live window, as published.
#[derive(Clone, Copy, PartialEq, Eq, Debug)]
pub struct WindowSnapshot {
    /// Physical size and scale in half steps, once the window has pixels.
    pub extent: Option<(i32, i32, i32)>,
    pub position: Option<(i32, i32)>,
    pub maximized: bool,
    pub fullscreen: bool,
}

/// The backend owns the toplevel, so live geometry comes from its own state.
pub struct X11WindowSource;

impl X11WindowSource {
    pub fn snapshot(&self, state: &X11State) -> (r: WindowSnapshot)
        ensures
            state.host is None ==> r == (WindowSnapshot {
                extent: None,
                position: None,
                maximized: false,
                fullscreen: false,
            }),
            state.host is Some ==> r == ({
                let m = state.parent;
                WindowSnapshot {
                    extent: if m.width > 0 && m.height > 0 {
                        Some((m.width, m.height, m.scale_halves))
                    } else {
                        None
                    },
                    position: Some((m.origin_x, m.origin_y)),
                    maximized: m.maximized,
                    fullscreen: m.fullscreen,
                }
            }),
    {
        if state.host.is_none() {
            return WindowSnapshot {
                extent: None,
                position: None,
                maximized: false,
                fullscreen: false,
            };
        }
        let m: ParentSnapshot = state.parent;
        WindowSnapshot {
            extent: if m.width > 0 && m.height > 0 {
                Some((m.width, m.height, m.scale_halves))
            } else {
                None
            },
            position: Some((m.origin_x, m.origin_y)),
            maximized: m.maximized,
            fullscreen: m.fullscreen,
        }
    }
}

/// mpv's host: a child of the app's top-level.
pub struct X11MpvHost;

impl X11MpvHost {
    /// The window mpv embeds into.
    pub fn embed_wid(&self, state: &X11State) -> (r: Option<i64>)
        ensures
            r == match state.host {
                Some(h) => Some(h.video_host as i64),
                None => None,
            },
    {
        match &state.host {
            Some(h) => Some(h.video_host as i64),
            None => None,
        }
    }

    pub fn host_ready(&self, state: &X11State) -> (r: bool)
        ensures
            r == (state.host is Some),
    {
        state.host.is_some()
    }
}

} // verus!
