//! X11 display scale. The app owns geometry and scale on X11, so this defines
//! the conversion between logical and physical pixels everywhere. Scales come
//! in half steps of 96 dots per inch.

use vstd::prelude::*;

verus! {

/// Half steps of an unscaled display.
pub const UNSCALED_HALVES: i32 = 2;

/// `n / d` rounded to the nearest integer, halves to the even one.
pub open spec fn round_half_even(n: int, d: int) -> int {
    let q = n / d;
    let r = n % d;
    if 2 * r < d || (2 * r == d && q % 2 == 0) {
        q
    } else {
        q + 1
    }
}

/// Half steps of a resolution: one step per 48 dots per inch. A resolution that
/// rounds to an unscaled display or less, or to ten times that or more, says
/// nothing.
pub open spec fn half_steps(dpi: int) -> Option<i32> {
    let s = round_half_even(dpi, 48);
    if 2 < s < 20 {
        Some(s as i32)
    } else {
        None
    }
}

/// The scale, in half steps, that an `Xft.dpi` resource asks for.
pub fn quantize_dpi(dpi: i64) -> (r: Option<i32>)
    ensures
        r == half_steps(dpi as int),
{
    if dpi <= 0 {
        assert(round_half_even(dpi as int, 48) <= 0);
        return None;
    }
    let q: i64 = dpi / 48;
    let r: i64 = dpi % 48;
    if q >= 20 {
        return None;
    }
    let s: i64 = if 2 * r < 48 || (2 * r == 48 && q % 2 == 0) {
        q
    } else {
        q + 1
    };
    if s > 2 && s < 20 {
        Some(s as i32)
    } else {
        None
    }
}

/// The scale of the display: what the resource database asks for, else what
/// both axes of the screen agree on.
pub fn display_scale(xft_dpi: Option<i64>, screen_x: Option<i32>, screen_y: Option<i32>) -> (r:
    Option<i32>)
    ensures
        r == match xft_dpi {
            Some(dpi) if half_steps(dpi as int) is Some => half_steps(dpi as int),
            _ => match (screen_x, screen_y) {
                (Some(x), Some(y)) if x == y => Some(x),
                _ => None,
            },
        },
{
    if let Some(dpi) = xft_dpi {
        if let Some(s) = quantize_dpi(dpi) {
            return Some(s);
        }
    }
    match (screen_x, screen_y) {
        (Some(x), Some(y)) => if x == y {
            Some(x)
        } else {
            None
        },
        _ => None,
    }
}

} // verus!
