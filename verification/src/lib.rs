//! Windowing logic of a media-player desktop shell: what its Wayland, X11 and
//! Windows backends decide, separated from the sockets, threads and compositor
//! objects they act on.

pub mod abi;
pub mod input_types;
pub mod text;
pub mod wayland;
pub mod windows;
pub mod x11;
