//! Decisions of the command controller.
//!
//! The controller thread receives commands, loads tracks and reports events.
//! Its waiting, loading and sending happen outside; each function here takes
//! what that work produced and decides the next playback state, the changes
//! to the provider and the crossfader, and the event to report.

use crate::commands::{AudioEvent, PlaybackState};
use crate::crossfader::{Crossfader, CrossfaderView};
use crate::decoder::{error_text, DecoderError};
use crate::provider::{ProviderView, SourceProvider};
use crate::source::{AudioSource, SourceState, SourceView};
use vstd::prelude::*;
use vstd::string::*;

verus! {

/// What a command did to the playback state: the new state, the event to
/// report, and whether playback must be unpaused.
#[derive(Debug, Clone)]
pub struct Transition {
    pub state: PlaybackState,
    pub event: Option<AudioEvent>,
    pub unpause: bool,
}

/// A transition to `state` that reports it.
pub open spec fn announce(state: PlaybackState) -> Transition {
    Transition { state, event: Some(AudioEvent::StateChanged(state)), unpause: false }
}

/// The message reported when a track to play cannot be opened.
pub open spec fn play_failure_message(path: Seq<char>, err: Seq<char>) -> Seq<char> {
    "Failed to decode "@ + path + ": "@ + err
}

/// The message reported when a track to queue cannot be opened.
pub open spec fn queue_failure_message(path: Seq<char>, err: Seq<char>) -> Seq<char> {
    "Failed to decode next track "@ + path + ": "@ + err
}

/// The message reported for a seek request.
pub open spec fn seek_message() -> Seq<char> {
    "Seek not yet implemented"@
}

/// A provider with nothing in it.
pub open spec fn emptied(p: ProviderView) -> ProviderView {
    ProviderView { current: None, next: None, ..p }
}

/// A source as installed for playback: made ready, then playing.
pub open spec fn installed(s: SourceView) -> SourceView {
    SourceView { state: SourceState::Playing, ..s }
}

/// A source as queued: a loading source becomes ready.
pub open spec fn queued(s: SourceView) -> SourceView {
    if s.state == SourceState::Loading {
        SourceView { state: SourceState::Ready, ..s }
    } else {
        s
    }
}

/// After `Stop` the provider holds no track. A following `Play` first
/// reports buffering and leaves the provider empty; once its track is
/// opened, it reports playing, unpauses, and the track is current and
/// playing with nothing queued.
pub proof fn lemma_stop_then_play(p: ProviderView, s: SourceView)
    ensures
        emptied(p).current.is_none(),
        emptied(p).next.is_none(),
        announce(PlaybackState::Buffering).state == PlaybackState::Buffering,
        announce(PlaybackState::Buffering).event == Some(
            AudioEvent::StateChanged(PlaybackState::Buffering),
        ),
        emptied(emptied(p)) == emptied(p),
        (Transition { unpause: true, ..announce(PlaybackState::Playing) }).state
            == PlaybackState::Playing,
        (ProviderView { current: Some(installed(s)), ..emptied(emptied(p)) }).current == Some(
            installed(s),
        ),
        (ProviderView { current: Some(installed(s)), ..emptied(emptied(p)) }).next.is_none(),
        installed(s).state == SourceState::Playing,
{
}

fn state_event(state: PlaybackState) -> (r: Transition)
    ensures
        r == announce(state),
{
    Transition { state, event: Some(AudioEvent::StateChanged(state)), unpause: false }
}

/// First half of `Play`: report buffering, drop both tracks and cancel any
/// crossfade, before the new track is opened.
pub fn begin_play<T: Copy>(sources: &mut SourceProvider<T>, crossfader: &mut Crossfader) -> (r:
    Transition)
    ensures
        r == announce(PlaybackState::Buffering),
        final(sources)@ == emptied(old(sources)@),
        final(crossfader)@ == (CrossfaderView { active: false, position: 0, ..old(crossfader)@ }),
{
    sources.stop();
    crossfader.reset();
    state_event(PlaybackState::Buffering)
}

/// Second half of `Play`, with the outcome of opening `path`: an opened track
/// becomes current and playing, and playback resumes; a failure is reported
/// and leaves the engine idle.
pub fn finish_play<T: Copy>(
    sources: &mut SourceProvider<T>,
    opened: Result<AudioSource<T>, DecoderError>,
    path: &str,
) -> (r: Transition)
    requires
        old(sources)@.wf(),
        opened matches Ok(s) ==> s@.info.channels > 0,
    ensures
        final(sources)@.wf(),
        match opened {
            Ok(s) => {
                &&& r == Transition { unpause: true, ..announce(PlaybackState::Playing) }
                &&& final(sources)@ == ProviderView { current: Some(installed(s@)), ..old(sources)@ }
            },
            Err(e) => {
                &&& r.state == PlaybackState::Idle
                &&& !r.unpause
                &&& r.event matches Some(AudioEvent::Error { message }) && message@
                    == play_failure_message(path@, error_text(e))
                &&& final(sources)@ == old(sources)@
            },
        },
{
    match opened {
        Ok(mut source) => {
            source.set_ready();
            source.set_playing();
            sources.set_current(source);
            Transition {
                state: PlaybackState::Playing,
                event: Some(AudioEvent::StateChanged(PlaybackState::Playing)),
                unpause: true,
            }
        },
        Err(e) => {
            let mut message = String::from_str("Failed to decode ");
            message.append(path);
            message.append(": ");
            let text = e.message();
            message.append(text.as_str());
            proof {
                reveal_strlit("Failed to decode ");
                reveal_strlit(": ");
            }
            Transition {
                state: PlaybackState::Idle,
                event: Some(AudioEvent::Error { message }),
                unpause: false,
            }
        },
    }
}

/// `QueueNext`, with the outcome of opening `path`: an opened track is queued
/// behind the current one, which plays on; a failure is reported.
pub fn finish_queue_next<T: Copy>(
    sources: &mut SourceProvider<T>,
    opened: Result<AudioSource<T>, DecoderError>,
    path: &str,
) -> (r: AudioEvent)
    requires
        old(sources)@.wf(),
        opened matches Ok(s) ==> s@.info.channels > 0,
    ensures
        final(sources)@.wf(),
        final(sources)@.current == old(sources)@.current,
        match opened {
            Ok(s) => {
                &&& r matches AudioEvent::NextTrackReady { path: p } && p@ == path@
                &&& final(sources)@ == ProviderView { next: Some(queued(s@)), ..old(sources)@ }
            },
            Err(e) => {
                &&& r matches AudioEvent::Error { message } && message@ == queue_failure_message(
                    path@,
                    error_text(e),
                )
                &&& final(sources)@ == old(sources)@
            },
        },
{
    match opened {
        Ok(mut source) => {
            source.set_ready();
            sources.queue_next(source);
            AudioEvent::NextTrackReady { path: String::from_str(path) }
        },
        Err(e) => {
            let mut message = String::from_str("Failed to decode next track ");
            message.append(path);
            message.append(": ");
            let text = e.message();
            message.append(text.as_str());
            proof {
                reveal_strlit("Failed to decode next track ");
                reveal_strlit(": ");
            }
            AudioEvent::Error { message }
        },
    }
}

/// How many times the controller polls a new track's pre-roll before
/// starting it anyway.
pub const PREROLL_ATTEMPTS: u32 = 100;

/// Whether to keep waiting for a new track's pre-roll after `attempts`
/// polls: only while too little is buffered and polls remain.
pub fn preroll_pending(attempts: u32, enough_buffered: bool) -> (r: bool)
    ensures
        r == (!enough_buffered && attempts < PREROLL_ATTEMPTS),
{
    !enough_buffered && attempts < PREROLL_ATTEMPTS
}

/// `Pause`: report the paused state.
pub fn pause() -> (r: Transition)
    ensures
        r == announce(PlaybackState::Paused),
{
    state_event(PlaybackState::Paused)
}

/// `Resume`: report the playing state and unpause.
pub fn resume() -> (r: Transition)
    ensures
        r == (Transition { unpause: true, ..announce(PlaybackState::Playing) }),
{
    Transition {
        state: PlaybackState::Playing,
        event: Some(AudioEvent::StateChanged(PlaybackState::Playing)),
        unpause: true,
    }
}

/// `Stop`: drop both tracks, cancel any crossfade and report the stopped
/// state.
pub fn stop<T: Copy>(sources: &mut SourceProvider<T>, crossfader: &mut Crossfader) -> (r:
    Transition)
    ensures
        r == announce(PlaybackState::Stopped),
        final(sources)@ == emptied(old(sources)@),
        final(crossfader)@ == (CrossfaderView { active: false, position: 0, ..old(crossfader)@ }),
{
    sources.stop();
    crossfader.reset();
    state_event(PlaybackState::Stopped)
}

/// `Seek`: not supported; reported as an error.
pub fn seek() -> (r: AudioEvent)
    ensures
        r matches AudioEvent::Error { message } && message@ == seek_message(),
{
    proof {
        reveal_strlit("Seek not yet implemented");
    }
    AudioEvent::Error { message: String::from_str("Seek not yet implemented") }
}

/// The crossfader after `SetCrossfade`: disabling cancels any fade; enabling
/// keeps a running fade unless the new length no longer contains its
/// position, in which case that fade is cancelled.
pub open spec fn configured(v: CrossfaderView, enabled: bool, duration: nat) -> CrossfaderView {
    if !enabled {
        CrossfaderView { enabled: false, duration, active: false, position: 0, ..v }
    } else if v.active && v.position >= duration {
        CrossfaderView { enabled: true, duration, active: false, position: 0, ..v }
    } else {
        CrossfaderView { enabled: true, duration, ..v }
    }
}

/// `SetCrossfade`: enable or disable crossfading and set the fade length in
/// frames; see [`configured`].
pub fn set_crossfade(crossfader: &mut Crossfader, enabled: bool, duration_samples: usize)
    requires
        old(crossfader)@.wf(),
    ensures
        final(crossfader)@ == configured(old(crossfader)@, enabled, duration_samples as nat),
        final(crossfader)@.wf(),
{
    crossfader.set_enabled(enabled);
    crossfader.set_duration(duration_samples);
}

/// `SkipToNext` and `CrossfadeToNext`. With a queued track: start a crossfade
/// when crossfading is enabled with a nonzero length, and report it;
/// otherwise make the queued track current at once. Without one, nothing
/// happens and `None` comes back.
pub fn skip_to_next<T: Copy>(sources: &mut SourceProvider<T>, crossfader: &mut Crossfader) -> (r:
    Option<Transition>)
    requires
        old(sources)@.wf(),
        old(crossfader)@.wf(),
    ensures
        final(sources)@.wf(),
        final(crossfader)@.wf(),
        old(sources)@.next.is_none() ==> r.is_none() && final(sources)@ == old(sources)@
            && final(crossfader)@ == old(crossfader)@,
        old(sources)@.next.is_some() && old(crossfader)@.enabled && old(crossfader)@.duration
            > 0 ==> {
            &&& r == Some(announce(PlaybackState::Crossfading))
            &&& final(sources)@ == old(sources)@
            &&& final(crossfader)@ == CrossfaderView {
                active: true,
                position: 0,
                ..old(crossfader)@
            }
        },
        old(sources)@.next.is_some() && !(old(crossfader)@.enabled && old(crossfader)@.duration
            > 0) ==> {
            &&& r == Some(
                Transition { state: PlaybackState::Playing, event: None, unpause: false },
            )
            &&& final(sources)@ == ProviderView {
                current: old(sources)@.next,
                next: None,
                ..old(sources)@
            }
            &&& final(crossfader)@ == old(crossfader)@
        },
{
    if !sources.has_next() {
        return None;
    }
    crossfader.start();
    if crossfader.is_active() {
        Some(state_event(PlaybackState::Crossfading))
    } else {
        let _ended = sources.advance_to_next();
        Some(Transition { state: PlaybackState::Playing, event: None, unpause: false })
    }
}

/// After each command: a crossfade that has run its course returns the
/// engine to the playing state, which is reported. `None` when nothing
/// changes.
pub fn settle_crossfade(state: PlaybackState, crossfader: &Crossfader) -> (r: Option<Transition>)
    ensures
        r == (if state == PlaybackState::Crossfading && !crossfader@.active {
            Some(announce(PlaybackState::Playing))
        } else {
            None::<Transition>
        }),
{
    if state == PlaybackState::Crossfading && !crossfader.is_active() {
        Some(state_event(PlaybackState::Playing))
    } else {
        None
    }
}

/// The event for a track that played to its end.
pub fn track_ended<T: Copy>(source: &AudioSource<T>) -> (r: AudioEvent)
    ensures
        r matches AudioEvent::TrackEnded { path } && path@ == source@.info.path@,
{
    AudioEvent::TrackEnded { path: source.info().path.clone() }
}

} // verus!
