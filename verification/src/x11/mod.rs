//! The X11 backend.

pub mod env_laws;
pub mod geometry;
pub mod geometry_pass;
pub mod gpu_paint_worker;
pub mod host_laws;
pub mod input;
pub mod input_laws;
pub mod input_lifecycle;
pub mod lifecycle;
pub mod menu;
pub mod menu_laws;
pub mod mpv_proxy;
pub mod overlay_fsm;
pub mod overlay_laws;
pub mod platform;
pub mod proxy_env;
pub mod proxy_laws;
pub mod proxy_rules;
pub mod registry;
pub mod relay_laws;
pub mod scale;
pub mod window_laws;
pub mod wire;
pub mod x11_state;
