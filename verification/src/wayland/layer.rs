//! What a layer surface is asked to show, and how that can end.

use vstd::prelude::*;

use crate::abi::FrameSize;

verus! {

/// Logical (destination) and physical (buffer) extent of a layer.
#[derive(Clone, Copy, PartialEq, Eq, Structural, Debug)]
pub struct ViewportState {
    pub lw: i32,
    pub lh: i32,
    pub pw: i32,
    pub ph: i32,
}

/// Whether a frame was taken.
#[derive(Clone, Copy, PartialEq, Eq, Structural, Debug)]
pub enum Present {
    Committed,
    Skipped,
}

/// Why a frame was refused.
#[derive(Clone, Copy, PartialEq, Eq, Structural, Debug)]
pub enum PresentError {
    /// No frame has this extent.
    BadDimensions(i32, i32),
    /// The pixels end before the frame does.
    ShortBuffer { have: usize, need: usize },
    /// No shared-memory buffer could be had.
    ShmAlloc,
    /// No buffer could be made of a dmabuf.
    DmabufCreate,
    /// The GPU painter failed.
    Gpu,
}

/// One plane of a shared texture; `fd` is whatever the owner keeps it by.
pub struct DmabufPlane<F> {
    pub fd: F,
    pub offset: u32,
    pub stride: u32,
}

/// A GPU buffer handed over by its producer.
pub struct SharedTexture<F> {
    pub coded: FrameSize,
    pub visible: FrameSize,
    pub modifier: u64,
    pub planes: Vec<DmabufPlane<F>>,
}

/// A buffer to attach: its extent, the part of it to show, and the logical
/// size that part is scaled to.
#[derive(Clone, Copy, PartialEq, Eq, Structural, Debug)]
pub struct FrameCommit {
    pub buf_w: i32,
    pub buf_h: i32,
    pub src_w: i32,
    pub src_h: i32,
    pub dst_w: i32,
    pub dst_h: i32,
}

} // verus!
