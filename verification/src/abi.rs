//! Plain values that cross the platform interface.

use vstd::prelude::*;

verus! {

/// A rectangle of a painted frame, in pixels of that frame.
#[derive(Clone, Copy, PartialEq, Eq, Structural, Debug)]
pub struct JfnRect {
    pub x: i32,
    pub y: i32,
    pub w: i32,
    pub h: i32,
}

/// A frame's extent in pixels.
#[derive(Clone, Copy, PartialEq, Eq, Structural, Debug)]
pub struct FrameSize {
    pub w: i32,
    pub h: i32,
}

/// Which menu a request belongs to; later menus have higher generations.
#[derive(Clone, Copy, PartialEq, Eq, Structural, Debug)]
pub struct Generation {
    pub id: u64,
}

/// Where a menu goes: its anchor, and its logical and physical size.
#[derive(Clone, Copy, PartialEq, Eq, Structural, Debug)]
pub struct MenuPlacement {
    pub x: i32,
    pub y: i32,
    pub lw: i32,
    pub lh: i32,
    pub pw: i32,
    pub ph: i32,
}

/// A painted menu. `scroll` and `view_ph` cut the part that is shown.
pub struct MenuPaint {
    pub generation: Generation,
    pub pixels: Vec<u8>,
    pub pw: i32,
    pub ph: i32,
    pub lw: i32,
    pub lh: i32,
    pub view_ph: i32,
    pub scroll: i32,
}

/// The decorations a user can ask for.
#[derive(Clone, Copy, PartialEq, Eq, Structural, Debug)]
pub enum WindowDecorations {
    Csd,
    Server,
    ServerThemed,
}

/// Who draws the titlebar.
#[derive(Clone, Copy, PartialEq, Eq, Structural, Debug)]
pub enum EffectiveDecorations {
    ClientSide,
    ServerSide,
}

#[derive(Clone, Copy, PartialEq, Eq, Structural, Debug)]
pub struct Rgb {
    pub r: u8,
    pub g: u8,
    pub b: u8,
}

pub open spec fn min_int(a: int, b: int) -> int {
    if a <= b {
        a
    } else {
        b
    }
}

pub open spec fn max_int(a: int, b: int) -> int {
    if a >= b {
        a
    } else {
        b
    }
}

pub fn min_i32(a: i32, b: i32) -> (r: i32)
    ensures
        r == min_int(a as int, b as int),
{
    if a <= b {
        a
    } else {
        b
    }
}

pub fn max_i32(a: i32, b: i32) -> (r: i32)
    ensures
        r == max_int(a as int, b as int),
{
    if a >= b {
        a
    } else {
        b
    }
}

} // verus!
