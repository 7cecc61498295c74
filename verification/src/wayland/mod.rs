//! The Wayland backend.

pub mod clipboard;
pub mod clipboard_laws;
pub mod frame_laws;
pub mod input;
pub mod input_laws;
pub mod layer;
pub mod layer_actor;
pub mod layer_laws;
pub mod layer_worker;
pub mod mirror_laws;
pub mod mpv_proxy;
pub mod picture_laws;
pub mod platform;
pub mod platform_laws;
pub mod popup_place;
pub mod presentation;
pub mod root_laws;
pub mod root_settle;
pub mod root_window;
pub mod scale;
pub mod scale_probe;
pub mod shm_shadow;
pub mod window_laws;
pub mod window_state;
pub mod wl_ops;
