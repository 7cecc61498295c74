//! Provisional scale from the outputs' geometry, used before the surface has
//! entered any output: boot-time geometry correction and the first-configure
//! fallback. The output is chosen by containing point when one is given, else
//! the first usable one.

use vstd::prelude::*;

use crate::wayland::scale::is_scale;
use crate::wayland::scale::ratio_120;
use crate::wayland::scale::Scale120;

verus! {

#[derive(Clone, Copy, PartialEq, Eq, Structural, Debug)]
pub enum ScaleProbeError {
    /// No Wayland session in the environment.
    NoWaylandSession,
    /// Connecting or round-tripping on the probe connection failed.
    Connection,
    /// No output offered complete, positive geometry to derive a scale from.
    NoUsableOutput,
    /// The probe outlived its deadline.
    Timeout,
}

impl ScaleProbeError {
    /// The error in words.
    pub fn message(&self) -> (r: &'static str)
        ensures
            r@ == match *self {
                ScaleProbeError::NoWaylandSession => "no Wayland session"@,
                ScaleProbeError::Connection => "probe connection failed"@,
                ScaleProbeError::NoUsableOutput => "no usable output"@,
                ScaleProbeError::Timeout => "probe timed out"@,
            },
    {
        match self {
            ScaleProbeError::NoWaylandSession => "no Wayland session",
            ScaleProbeError::Connection => "probe connection failed",
            ScaleProbeError::NoUsableOutput => "no usable output",
            ScaleProbeError::Timeout => "probe timed out",
        }
    }
}

#[derive(Clone, Copy, PartialEq, Eq, Structural, Debug)]
pub enum ProbeTarget {
    /// The output containing this point (compositor logical coordinates).
    Point { x: i32, y: i32 },
    /// The first usable output, for callers with no better anchor.
    FirstOutput,
}

/// One output's geometry as needed for scale derivation.
#[derive(Clone, Copy, Debug)]
pub struct OutputCandidate {
    pub logical_pos: (i32, i32),
    pub logical_size: (i32, i32),
    /// Current mode dimensions, in the panel's native (untransformed) axes.
    pub mode: (i32, i32),
    /// Output transform rotates by 90 or 270 degrees, so the mode's axes are
    /// swapped relative to the logical size.
    pub swaps_axes: bool,
}

/// The sum, cut off at the largest `i32`.
pub open spec fn capped_sum(a: int, b: int) -> int {
    if a + b > i32::MAX {
        i32::MAX as int
    } else if a + b < i32::MIN {
        i32::MIN as int
    } else {
        a + b
    }
}

fn capped_add(a: i32, b: i32) -> (r: i32)
    ensures
        r == capped_sum(a as int, b as int),
{
    match a.checked_add(b) {
        Some(v) => v,
        None => if b > 0 {
            i32::MAX
        } else {
            i32::MIN
        },
    }
}

impl OutputCandidate {
    pub fn new(
        logical_pos: (i32, i32),
        logical_size: (i32, i32),
        mode: (i32, i32),
        swaps_axes: bool,
    ) -> (o: Self)
        ensures
            o == (OutputCandidate { logical_pos, logical_size, mode, swaps_axes }),
    {
        OutputCandidate { logical_pos, logical_size, mode, swaps_axes }
    }

    pub open spec fn holds(self, x: i32, y: i32) -> bool {
        &&& self.logical_pos.0 <= x < capped_sum(
            self.logical_pos.0 as int,
            self.logical_size.0 as int,
        )
        &&& self.logical_pos.1 <= y < capped_sum(
            self.logical_pos.1 as int,
            self.logical_size.1 as int,
        )
    }

    pub fn contains(&self, x: i32, y: i32) -> (r: bool)
        ensures
            r == self.holds(x, y),
    {
        let (lx, ly) = self.logical_pos;
        let (lw, lh) = self.logical_size;
        x >= lx && x < capped_add(lx, lw) && y >= ly && y < capped_add(ly, lh)
    }

    /// Width of the panel along the logical width.
    pub open spec fn physical_w(self) -> i32 {
        if self.swaps_axes {
            self.mode.1
        } else {
            self.mode.0
        }
    }

    /// The output's scale in 120ths; zero where its geometry gives none.
    pub open spec fn raw_scale(self) -> int {
        if self.physical_w() < 0 || self.logical_size.0 <= 0 {
            0
        } else {
            ratio_120(self.physical_w() as int, self.logical_size.0 as int)
        }
    }

    pub open spec fn usable(self) -> bool {
        1 <= self.raw_scale() <= u32::MAX
    }

    /// Physical/logical width as an exact rational, transform-corrected.
    pub fn scale(&self) -> (r: Option<Scale120>)
        ensures
            is_scale(r, self.raw_scale()),
            r is Some <==> self.usable(),
    {
        let physical_w: i32 = if self.swaps_axes {
            self.mode.1
        } else {
            self.mode.0
        };
        if physical_w < 0 || self.logical_size.0 <= 0 {
            return None;
        }
        Scale120::from_physical_logical(physical_w as u32, self.logical_size.0 as u32)
    }
}

/// Index of the first usable output, among all or among those that hold a
/// point.
pub open spec fn first_usable(outputs: Seq<OutputCandidate>, at: Option<(i32, i32)>) -> Option<int>
    decreases outputs.len(),
{
    if outputs.len() == 0 {
        None
    } else {
        match first_usable(outputs.drop_last(), at) {
            Some(i) => Some(i),
            None => if eligible(outputs.last(), at) {
                Some(outputs.len() - 1)
            } else {
                None
            },
        }
    }
}

pub open spec fn eligible(o: OutputCandidate, at: Option<(i32, i32)>) -> bool {
    o.usable() && match at {
        Some(p) => o.holds(p.0, p.1),
        None => true,
    }
}

/// The output a target selects. A point falls back to the first usable output
/// when no usable output contains it (it may be a stale position from a
/// disconnected output).
pub open spec fn selected(outputs: Seq<OutputCandidate>, target: ProbeTarget) -> Option<int> {
    match target {
        ProbeTarget::Point { x, y } => match first_usable(outputs, Some((x, y))) {
            Some(i) => Some(i),
            None => first_usable(outputs, None),
        },
        ProbeTarget::FirstOutput => first_usable(outputs, None),
    }
}

fn find_scale(outputs: &[OutputCandidate], at: Option<(i32, i32)>) -> (r: Option<Scale120>)
    ensures
        match (r, first_usable(outputs@, at)) {
            (Some(s), Some(i)) => 0 <= i < outputs@.len() && s.raw() == outputs@[i].raw_scale(),
            (None, None) => true,
            _ => false,
        },
{
    let mut i: usize = 0;
    assert(outputs@.take(0) =~= Seq::empty());
    while i < outputs.len()
        invariant
            i <= outputs@.len(),
            first_usable(outputs@.take(i as int), at) is None,
        decreases outputs@.len() - i,
    {
        assert(outputs@.take(i + 1).drop_last() =~= outputs@.take(i as int));
        let wanted = match at {
            Some(p) => outputs[i].contains(p.0, p.1),
            None => true,
        };
        if wanted {
            if let Some(s) = outputs[i].scale() {
                proof {
                    first_usable_prefix(outputs@, i + 1, at);
                }
                return Some(s);
            }
        }
        i += 1;
    }
    assert(outputs@.take(outputs@.len() as int) =~= outputs@);
    None
}

proof fn first_usable_prefix(outputs: Seq<OutputCandidate>, n: int, at: Option<(i32, i32)>)
    requires
        0 <= n <= outputs.len(),
        first_usable(outputs.take(n), at) is Some,
    ensures
        first_usable(outputs, at) == first_usable(outputs.take(n), at),
    decreases outputs.len(),
{
    if n < outputs.len() {
        assert(outputs.drop_last().take(n) =~= outputs.take(n));
        first_usable_prefix(outputs.drop_last(), n, at);
    } else {
        assert(outputs.take(n) =~= outputs);
    }
}

/// Output selection and scale calculation.
pub fn select_scale(outputs: &[OutputCandidate], target: ProbeTarget) -> (r: Result<
    Scale120,
    ScaleProbeError,
>)
    ensures
        match (r, selected(outputs@, target)) {
            (Ok(s), Some(i)) => 0 <= i < outputs@.len() && s.raw() == outputs@[i].raw_scale(),
            (Err(e), None) => e == ScaleProbeError::NoUsableOutput,
            _ => false,
        },
{
    if let ProbeTarget::Point { x, y } = target {
        if let Some(s) = find_scale(outputs, Some((x, y))) {
            return Ok(s);
        }
    }
    match find_scale(outputs, None) {
        Some(s) => Ok(s),
        None => Err(ScaleProbeError::NoUsableOutput),
    }
}

/// An output's orientation relative to its panel.
#[derive(Clone, Copy, PartialEq, Eq, Structural, Debug)]
pub enum Transform {
    Normal,
    Rotated90,
    Rotated180,
    Rotated270,
    Flipped,
    Flipped90,
    Flipped180,
    Flipped270,
}

/// Whether a quarter turn swaps the panel's axes.
pub fn transform_swaps_axes(t: Transform) -> (r: bool)
    ensures
        r == (t == Transform::Rotated90 || t == Transform::Rotated270 || t == Transform::Flipped90
            || t == Transform::Flipped270),
{
    matches!(
        t,
        Transform::Rotated90 | Transform::Rotated270 | Transform::Flipped90 | Transform::Flipped270
    )
}

/// One mode an output advertised.
#[derive(Clone, Copy, Debug)]
pub struct OutputMode {
    pub dimensions: (i32, i32),
    pub current: bool,
}

/// What an output has advertised so far; pieces may be missing.
pub struct OutputInfo {
    pub logical_position: Option<(i32, i32)>,
    pub logical_size: Option<(i32, i32)>,
    pub modes: Vec<OutputMode>,
    pub transform: Transform,
}

/// The dimensions of the first current mode, else of the first mode.
pub open spec fn chosen_mode(modes: Seq<OutputMode>) -> Option<(i32, i32)>
    decreases modes.len(),
{
    match first_current(modes) {
        Some(i) => Some(modes[i].dimensions),
        None => if modes.len() > 0 {
            Some(modes[0].dimensions)
        } else {
            None
        },
    }
}

pub open spec fn first_current(modes: Seq<OutputMode>) -> Option<int>
    decreases modes.len(),
{
    if modes.len() == 0 {
        None
    } else {
        match first_current(modes.drop_last()) {
            Some(i) => Some(i),
            None => if modes.last().current {
                Some(modes.len() - 1)
            } else {
                None
            },
        }
    }
}

proof fn first_current_prefix(modes: Seq<OutputMode>, n: int)
    requires
        0 <= n <= modes.len(),
        first_current(modes.take(n)) is Some,
    ensures
        first_current(modes) == first_current(modes.take(n)),
    decreases modes.len(),
{
    if n < modes.len() {
        assert(modes.drop_last().take(n) =~= modes.take(n));
        first_current_prefix(modes.drop_last(), n);
    } else {
        assert(modes.take(n) =~= modes);
    }
}

/// The candidate an output makes; `None` while its metadata is incomplete, so
/// an output still mid-advertisement is skipped, not guessed at.
pub fn candidate(info: &OutputInfo) -> (r: Option<OutputCandidate>)
    ensures
        r == match (info.logical_position, info.logical_size, chosen_mode(info.modes@)) {
            (Some(logical_pos), Some(logical_size), Some(mode)) => Some(
                OutputCandidate {
                    logical_pos,
                    logical_size,
                    mode,
                    swaps_axes: info.transform == Transform::Rotated90 || info.transform
                        == Transform::Rotated270 || info.transform == Transform::Flipped90
                        || info.transform == Transform::Flipped270,
                },
            ),
            _ => None,
        },
{
    let (pos, size) = match (info.logical_position, info.logical_size) {
        (Some(p), Some(s)) => (p, s),
        _ => return None,
    };
    let swaps = transform_swaps_axes(info.transform);
    let mut i: usize = 0;
    assert(info.modes@.take(0) =~= Seq::empty());
    while i < info.modes.len()
        invariant
            i <= info.modes@.len(),
            first_current(info.modes@.take(i as int)) is None,
            info.logical_position == Some(pos),
            info.logical_size == Some(size),
            swaps == (info.transform == Transform::Rotated90 || info.transform
                == Transform::Rotated270 || info.transform == Transform::Flipped90
                || info.transform == Transform::Flipped270),
        decreases info.modes@.len() - i,
    {
        assert(info.modes@.take(i + 1).drop_last() =~= info.modes@.take(i as int));
        if info.modes[i].current {
            proof {
                first_current_prefix(info.modes@, i + 1);
            }
            return Some(OutputCandidate::new(pos, size, info.modes[i].dimensions, swaps));
        }
        i += 1;
    }
    assert(info.modes@.take(info.modes@.len() as int) =~= info.modes@);
    if info.modes.len() == 0 {
        return None;
    }
    Some(OutputCandidate::new(pos, size, info.modes[0].dimensions, swaps))
}

/// The candidates of all outputs whose metadata is complete, in order.
pub open spec fn candidates(infos: Seq<OutputInfo>) -> Seq<OutputCandidate>
    decreases infos.len(),
{
    if infos.len() == 0 {
        Seq::empty()
    } else {
        let info = infos.last();
        let before = candidates(infos.drop_last());
        match (info.logical_position, info.logical_size, chosen_mode(info.modes@)) {
            (Some(logical_pos), Some(logical_size), Some(mode)) => before.push(
                OutputCandidate {
                    logical_pos,
                    logical_size,
                    mode,
                    swaps_axes: info.transform == Transform::Rotated90 || info.transform
                        == Transform::Rotated270 || info.transform == Transform::Flipped90
                        || info.transform == Transform::Flipped270,
                },
            ),
            _ => before,
        }
    }
}

pub fn collect_candidates(infos: &[OutputInfo]) -> (r: Vec<OutputCandidate>)
    ensures
        r@ == candidates(infos@),
{
    let mut out: Vec<OutputCandidate> = Vec::new();
    let mut i: usize = 0;
    assert(infos@.take(0) =~= Seq::empty());
    while i < infos.len()
        invariant
            i <= infos@.len(),
            out@ == candidates(infos@.take(i as int)),
        decreases infos@.len() - i,
    {
        assert(infos@.take(i + 1).drop_last() =~= infos@.take(i as int));
        if let Some(c) = candidate(&infos[i]) {
            out.push(c);
        }
        i += 1;
    }
    assert(infos@.take(infos@.len() as int) =~= infos@);
    out
}

/// The scale for `target`. Without a session nothing is asked; `outputs` is
/// what the outputs advertised, where the probe connection got that far.
pub fn probe_scale(has_session: bool, outputs: &Option<Vec<OutputInfo>>, target: ProbeTarget) -> (r:
    Result<Scale120, ScaleProbeError>)
    ensures
        match (has_session, *outputs) {
            (false, _) => r == Err::<Scale120, ScaleProbeError>(ScaleProbeError::NoWaylandSession),
            (true, None) => r == Err::<Scale120, ScaleProbeError>(ScaleProbeError::Connection),
            (true, Some(infos)) => match (r, selected(candidates(infos@), target)) {
                (Ok(s), Some(i)) => 0 <= i < candidates(infos@).len() && s.raw() == candidates(
                    infos@,
                )[i].raw_scale(),
                (Err(e), None) => e == ScaleProbeError::NoUsableOutput,
                _ => false,
            },
        },
{
    if !has_session {
        return Err(ScaleProbeError::NoWaylandSession);
    }
    match outputs {
        Some(infos) => {
            let found = collect_candidates(infos.as_slice());
            select_scale(found.as_slice(), target)
        },
        None => Err(ScaleProbeError::Connection),
    }
}

/// What became of a probe on a thread of its own.
#[derive(Clone, Copy, PartialEq, Eq, Debug)]
pub enum ProbeReply {
    /// There was no thread to be had.
    NotStarted,
    /// Nothing came before the deadline; the probe is abandoned.
    Nothing,
    Probed(Result<Scale120, ScaleProbeError>),
}

/// What a bounded probe answers.
pub fn probe_scale_bounded(reply: ProbeReply) -> (r: Result<Scale120, ScaleProbeError>)
    ensures
        r == match reply {
            ProbeReply::NotStarted => Err::<Scale120, ScaleProbeError>(ScaleProbeError::Connection),
            ProbeReply::Nothing => Err::<Scale120, ScaleProbeError>(ScaleProbeError::Timeout),
            ProbeReply::Probed(answer) => answer,
        },
{
    match reply {
        ProbeReply::NotStarted => Err(ScaleProbeError::Connection),
        ProbeReply::Nothing => Err(ScaleProbeError::Timeout),
        ProbeReply::Probed(answer) => answer,
    }
}

} // verus!
