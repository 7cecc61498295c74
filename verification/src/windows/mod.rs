//! The Windows backend.

pub mod backend;
pub mod laws;
pub mod platform;
pub mod render;
pub mod sink;
pub mod window;
