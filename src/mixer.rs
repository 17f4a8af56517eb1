//! Decisions of the real-time output callback.
//!
//! The callback must never block: each lock it needs is tried, and a lock
//! it cannot take costs one buffer of silence. The sample arithmetic (gains,
//! speed interpolation, volume) happens outside; the functions here choose
//! the path a callback takes and hand tracks over when a crossfade ends.

use crate::crossfader::Crossfader;
use crate::provider::{ProviderView, SourceProvider};
use crate::source::AudioSource;
use crate::provider::opt_view;
use vstd::prelude::*;

verus! {

/// How one callback fills its buffer.
#[derive(Debug, Clone, Copy, PartialEq, Eq, Structural)]
pub enum CallbackPath {
    /// Write silence: paused, or a lock was busy.
    Silence,
    /// Mix the current and the queued track through the crossfader.
    Crossfade,
    /// Read the current track straight into the buffer.
    Direct,
    /// Read the current track at another speed, interpolating.
    Resample,
}

/// The path a callback takes, from what it found: whether playback is
/// paused, whether it got the provider's and the crossfader's locks, whether
/// a crossfade is running with a queued track, and whether the speed is 1.
pub open spec fn spec_choose_path(
    paused: bool,
    sources_locked: bool,
    fader_locked: bool,
    fading: bool,
    has_next: bool,
    unit_speed: bool,
) -> CallbackPath {
    if paused || !sources_locked || !fader_locked {
        CallbackPath::Silence
    } else if fading && has_next {
        CallbackPath::Crossfade
    } else if unit_speed {
        CallbackPath::Direct
    } else {
        CallbackPath::Resample
    }
}

/// Executable form of [`spec_choose_path`].
pub fn choose_path(
    paused: bool,
    sources_locked: bool,
    fader_locked: bool,
    fading: bool,
    has_next: bool,
    unit_speed: bool,
) -> (r: CallbackPath)
    ensures
        r == spec_choose_path(paused, sources_locked, fader_locked, fading, has_next, unit_speed),
{
    if paused || !sources_locked || !fader_locked {
        CallbackPath::Silence
    } else if fading && has_next {
        CallbackPath::Crossfade
    } else if unit_speed {
        CallbackPath::Direct
    } else {
        CallbackPath::Resample
    }
}

/// After a crossfade buffer: once the fade has ended, the queued track
/// becomes current and the faded-out one is returned, to be released off the
/// real-time thread. While the fade runs nothing changes.
pub fn finish_crossfade<T: Copy>(sources: &mut SourceProvider<T>, crossfader: &Crossfader) -> (r:
    Option<AudioSource<T>>)
    requires
        old(sources)@.wf(),
    ensures
        final(sources)@.wf(),
        crossfader@.active ==> r.is_none() && final(sources)@ == old(sources)@,
        !crossfader@.active ==> {
            &&& opt_view(r) == old(sources)@.current
            &&& final(sources)@ == ProviderView {
                current: old(sources)@.next,
                next: None,
                ..old(sources)@
            }
        },
{
    if crossfader.is_active() {
        None
    } else {
        sources.advance_to_next()
    }
}

/// Interleaved samples to read for `out_frames` frames at a speed whose
/// frame count, rounded down, is `speed_frames`: two frames more, so that the
/// last output frame has a neighbour to interpolate with. `None` when that
/// does not fit in a `usize`.
pub fn speed_read_len(speed_frames: usize, channels: usize) -> (r: Option<usize>)
    ensures
        match r {
            Some(n) => n == (speed_frames + 2) * channels,
            None => (speed_frames + 2) * channels > usize::MAX,
        },
{
    if speed_frames > usize::MAX - 2 {
        proof {
            assert((speed_frames + 2) * channels >= 0) by (nonlinear_arith);
            if channels > 0 {
                assert((speed_frames + 2) * channels >= speed_frames + 2) by (nonlinear_arith)
                    requires channels > 0;
            }
        }
        if channels == 0 {
            return Some(0);
        }
        return None;
    }
    let frames = speed_frames + 2;
    match frames.checked_mul(channels) {
        Some(n) => Some(n),
        None => None,
    }
}

/// Lengths of the callback's preallocated buffers for output at
/// `sample_rate` with `channels` channels: each mix buffer holds a tenth of
/// a second, and the speed buffer three times that, enough to read ahead at
/// double speed. `None` when they do not fit in a `usize`.
pub fn callback_buffer_lens(sample_rate: u32, channels: usize) -> (r: Option<(usize, usize)>)
    ensures
        match r {
            Some((mix, speed)) => mix == (sample_rate / 10) as int * channels && speed == 3 * mix,
            None => 3 * ((sample_rate / 10) as int * channels) > usize::MAX,
        },
{
    let tenth: usize = (sample_rate / 10) as usize;
    match tenth.checked_mul(channels) {
        Some(mix) => match mix.checked_mul(3) {
            Some(speed) => Some((mix, speed)),
            None => None,
        },
        None => {
            proof {
                assert(3 * (tenth * channels) >= tenth * channels) by (nonlinear_arith)
                    requires tenth * channels >= 0;
                assert(tenth * channels >= 0) by (nonlinear_arith);
            }
            None
        },
    }
}

} // verus!
