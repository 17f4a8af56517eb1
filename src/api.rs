//! Host-facing values: curve tags and the state label the host reads.

use crate::commands::{state_tag, PlaybackState};
use crate::crossfader::CrossfadeCurve;
use vstd::prelude::*;
use vstd::string::*;

verus! {

/// Crossfade curve as the host names it.
#[derive(Debug, Clone, Copy, PartialEq, Eq, Structural)]
pub enum CrossfadeCurveType {
    EqualPower,
    Linear,
    SquareRoot,
    SCurve,
}

/// The crossfader's curve for each host tag.
pub open spec fn curve_of(t: CrossfadeCurveType) -> CrossfadeCurve {
    match t {
        CrossfadeCurveType::EqualPower => CrossfadeCurve::EqualPower,
        CrossfadeCurveType::Linear => CrossfadeCurve::Linear,
        CrossfadeCurveType::SquareRoot => CrossfadeCurve::SquareRoot,
        CrossfadeCurveType::SCurve => CrossfadeCurve::SCurve,
    }
}

impl From<CrossfadeCurveType> for CrossfadeCurve {
    fn from(t: CrossfadeCurveType) -> (r: CrossfadeCurve)
        ensures
            r == curve_of(t),
    {
        match t {
            CrossfadeCurveType::EqualPower => CrossfadeCurve::EqualPower,
            CrossfadeCurveType::Linear => CrossfadeCurve::Linear,
            CrossfadeCurveType::SquareRoot => CrossfadeCurve::SquareRoot,
            CrossfadeCurveType::SCurve => CrossfadeCurve::SCurve,
        }
    }
}

impl vstd::std_specs::convert::FromSpecImpl<CrossfadeCurveType> for CrossfadeCurve {
    open spec fn obeys_from_spec() -> bool {
        true
    }

    open spec fn from_spec(t: CrossfadeCurveType) -> CrossfadeCurve {
        curve_of(t)
    }
}

/// Accepts a curve for the host's crossfades. The engine keeps its
/// equal-power curve: the call succeeds and changes nothing.
pub fn audio_set_crossfade_curve(curve: CrossfadeCurveType) -> (r: Result<(), String>)
    ensures
        r is Ok,
{
    Ok(())
}

/// The label the host reads for the engine's state: the state's tag, or
/// "uninitialized" when there is no engine.
pub open spec fn spec_state_label(state: Option<PlaybackState>) -> Seq<char> {
    match state {
        Some(s) => state_tag(s),
        None => "uninitialized"@,
    }
}

/// Executable form of [`spec_state_label`].
pub fn state_label(state: Option<PlaybackState>) -> (r: String)
    ensures
        r@ == spec_state_label(state),
{
    match state {
        Some(s) => s.tag(),
        None => String::from_str("uninitialized"),
    }
}

} // verus!
