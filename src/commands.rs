//! Playback states and the events that the engine reports to its host.

use vstd::prelude::*;
use vstd::string::*;

verus! {

/// Playback state reported to the host.
#[derive(Debug, Clone, Copy, PartialEq, Eq, Structural)]
pub enum PlaybackState {
    /// No track loaded.
    Idle,
    /// A track is playing.
    Playing,
    /// Playback is paused.
    Paused,
    /// A track is being loaded.
    Buffering,
    /// A crossfade between two tracks is in progress.
    Crossfading,
    /// Playback was stopped.
    Stopped,
}

impl Default for PlaybackState {
    fn default() -> (r: Self)
        ensures
            r == PlaybackState::Idle,
    {
        PlaybackState::Idle
    }
}

/// The one-byte code of each state, as stored in a shared atomic cell.
pub open spec fn state_code(s: PlaybackState) -> u8 {
    match s {
        PlaybackState::Idle => 0,
        PlaybackState::Playing => 1,
        PlaybackState::Paused => 2,
        PlaybackState::Buffering => 3,
        PlaybackState::Crossfading => 4,
        PlaybackState::Stopped => 5,
    }
}

/// The state that a code stands for; codes that no state has read as idle.
pub open spec fn state_of_code(c: u8) -> PlaybackState {
    if c == 1 {
        PlaybackState::Playing
    } else if c == 2 {
        PlaybackState::Paused
    } else if c == 3 {
        PlaybackState::Buffering
    } else if c == 4 {
        PlaybackState::Crossfading
    } else if c == 5 {
        PlaybackState::Stopped
    } else {
        PlaybackState::Idle
    }
}

/// The tag by which the host names each state.
pub open spec fn state_tag(s: PlaybackState) -> Seq<char> {
    match s {
        PlaybackState::Idle => "idle"@,
        PlaybackState::Playing => "playing"@,
        PlaybackState::Paused => "paused"@,
        PlaybackState::Buffering => "buffering"@,
        PlaybackState::Crossfading => "crossfading"@,
        PlaybackState::Stopped => "stopped"@,
    }
}

impl PlaybackState {
    /// The one-byte code of this state.
    pub fn code(self) -> (r: u8)
        ensures
            r == state_code(self),
    {
        match self {
            PlaybackState::Idle => 0,
            PlaybackState::Playing => 1,
            PlaybackState::Paused => 2,
            PlaybackState::Buffering => 3,
            PlaybackState::Crossfading => 4,
            PlaybackState::Stopped => 5,
        }
    }

    /// Decodes a state from its one-byte code.
    pub fn from_code(c: u8) -> (r: PlaybackState)
        ensures
            r == state_of_code(c),
    {
        match c {
            1 => PlaybackState::Playing,
            2 => PlaybackState::Paused,
            3 => PlaybackState::Buffering,
            4 => PlaybackState::Crossfading,
            5 => PlaybackState::Stopped,
            _ => PlaybackState::Idle,
        }
    }

    /// The host's tag for this state ("idle", "playing", ...).
    pub fn tag(self) -> (r: String)
        ensures
            r@ == state_tag(self),
    {
        match self {
            PlaybackState::Idle => String::from_str("idle"),
            PlaybackState::Playing => String::from_str("playing"),
            PlaybackState::Paused => String::from_str("paused"),
            PlaybackState::Buffering => String::from_str("buffering"),
            PlaybackState::Crossfading => String::from_str("crossfading"),
            PlaybackState::Stopped => String::from_str("stopped"),
        }
    }
}

/// Decoding a state's code gives the state back.
pub proof fn lemma_code_round_trip(s: PlaybackState)
    ensures
        state_of_code(state_code(s)) == s,
{
}

/// Events that the engine emits to the host.
#[derive(Debug, Clone)]
pub enum AudioEvent {
    /// The playback state changed.
    StateChanged(PlaybackState),
    /// A track played to its end.
    TrackEnded { path: String },
    /// A crossfade between two tracks began.
    CrossfadeStarted { from_path: String, to_path: String },
    /// Something failed; the engine stays usable.
    Error { message: String },
    /// The next track is loaded and will follow without a gap.
    NextTrackReady { path: String },
}

} // verus!
