//! Crossfade state machine.
//!
//! The fader counts output frames through a fade of a fixed length. The gain
//! curves themselves are evaluated by the caller from the progress that
//! `fade_progress` reports.

use vstd::prelude::*;

verus! {

/// Crossfade curve types.
#[derive(Debug, Clone, Copy, PartialEq, Eq, Structural)]
pub enum CrossfadeCurve {
    /// Equal power using sin/cos; keeps perceived loudness constant.
    EqualPower,
    /// Linear fade.
    Linear,
    /// Square-root curve (another equal-power fade).
    SquareRoot,
    /// Smoothstep curve.
    SCurve,
}

impl Default for CrossfadeCurve {
    fn default() -> (r: Self)
        ensures
            r == CrossfadeCurve::EqualPower,
    {
        CrossfadeCurve::EqualPower
    }
}

/// What a crossfader is, as plain values.
pub ghost struct CrossfaderView {
    pub enabled: bool,
    pub duration: nat,
    pub position: nat,
    pub active: bool,
    pub curve: CrossfadeCurve,
    pub sample_rate: u32,
}

/// Crossfader state machine; its position and duration count frames.
#[derive(Debug, Clone)]
pub struct Crossfader {
    enabled: bool,
    duration_samples: usize,
    position: usize,
    active: bool,
    curve: CrossfadeCurve,
    sample_rate: u32,
}

impl View for Crossfader {
    type V = CrossfaderView;

    closed spec fn view(&self) -> CrossfaderView {
        CrossfaderView {
            enabled: self.enabled,
            duration: self.duration_samples as nat,
            position: self.position as nat,
            active: self.active,
            curve: self.curve,
            sample_rate: self.sample_rate,
        }
    }
}

impl CrossfaderView {
    /// A fade in progress is enabled, has a length and has not reached its end;
    /// an idle fader rests at position zero.
    pub open spec fn wf(self) -> bool {
        &&& self.active ==> self.enabled && self.duration > 0 && self.position < self.duration
        &&& !self.active ==> self.position == 0
    }

    /// The state after `n` more frames of a fade.
    pub open spec fn advanced(self, n: nat) -> CrossfaderView {
        if !self.active {
            self
        } else if self.position + n >= self.duration {
            CrossfaderView { active: false, position: 0, ..self }
        } else {
            CrossfaderView { position: self.position + n, ..self }
        }
    }

    /// Whether `n` more frames end an active fade.
    pub open spec fn completes_within(self, n: nat) -> bool {
        self.active && self.position + n >= self.duration
    }
}

/// Advancing a fade one frame and then `n` more frames is advancing it
/// `n + 1` frames at once, and the fade ends within those frames exactly when
/// it ends on the first or within the `n` after it.
pub proof fn lemma_advance_one_then_n(v: CrossfaderView, n: nat)
    requires
        v.wf(),
    ensures
        v.advanced(1).advanced(n) == v.advanced(n + 1),
        v.completes_within(n + 1) == (v.completes_within(1) || v.advanced(1).completes_within(n)),
        v.advanced(1).wf(),
{
}

impl Crossfader {
    /// An enabled crossfader whose fades last `duration_samples` frames.
    pub fn new(sample_rate: u32, duration_samples: usize) -> (r: Self)
        ensures
            r@ == (CrossfaderView {
                enabled: true,
                duration: duration_samples as nat,
                position: 0,
                active: false,
                curve: CrossfadeCurve::EqualPower,
                sample_rate,
            }),
            r@.wf(),
    {
        Crossfader {
            enabled: true,
            duration_samples,
            position: 0,
            active: false,
            curve: CrossfadeCurve::EqualPower,
            sample_rate,
        }
    }

    /// A disabled crossfader with a zero-length fade.
    pub fn disabled(sample_rate: u32) -> (r: Self)
        ensures
            r@ == (CrossfaderView {
                enabled: false,
                duration: 0,
                position: 0,
                active: false,
                curve: CrossfadeCurve::EqualPower,
                sample_rate,
            }),
            r@.wf(),
    {
        Crossfader {
            enabled: false,
            duration_samples: 0,
            position: 0,
            active: false,
            curve: CrossfadeCurve::EqualPower,
            sample_rate,
        }
    }

    /// Whether crossfading is enabled.
    pub fn is_enabled(&self) -> (r: bool)
        ensures
            r == self@.enabled,
    {
        self.enabled
    }

    /// Whether a fade is in progress.
    pub fn is_active(&self) -> (r: bool)
        ensures
            r == self@.active,
    {
        self.active
    }

    /// Enables or disables crossfading; disabling cancels a fade in progress.
    pub fn set_enabled(&mut self, enabled: bool)
        requires
            old(self)@.wf(),
        ensures
            final(self)@ == (if enabled {
                CrossfaderView { enabled: true, ..old(self)@ }
            } else {
                CrossfaderView { enabled: false, active: false, position: 0, ..old(self)@ }
            }),
            final(self)@.wf(),
    {
        self.enabled = enabled;
        if !enabled {
            self.active = false;
            self.position = 0;
        }
    }

    /// Sets the fade length in frames. A fade in progress that the new length
    /// no longer contains is cancelled.
    pub fn set_duration(&mut self, duration_samples: usize)
        requires
            old(self)@.wf(),
        ensures
            final(self)@ == (if old(self)@.active && old(self)@.position >= duration_samples {
                CrossfaderView {
                    duration: duration_samples as nat,
                    active: false,
                    position: 0,
                    ..old(self)@
                }
            } else {
                CrossfaderView { duration: duration_samples as nat, ..old(self)@ }
            }),
            final(self)@.wf(),
    {
        self.duration_samples = duration_samples;
        if self.active && self.position >= duration_samples {
            self.active = false;
            self.position = 0;
        }
    }

    /// The fade length in frames.
    pub fn duration_samples(&self) -> (r: usize)
        ensures
            r == self@.duration,
    {
        self.duration_samples
    }

    /// The sample rate that the fade length is counted at.
    pub fn sample_rate(&self) -> (r: u32)
        ensures
            r == self@.sample_rate,
    {
        self.sample_rate
    }

    /// Frames left in the fade in progress; zero when idle.
    pub fn remaining_samples(&self) -> (r: usize)
        requires
            self@.wf(),
        ensures
            r == (if self@.active { self@.duration - self@.position } else { 0int }),
    {
        if !self.active {
            0
        } else {
            self.duration_samples - self.position
        }
    }

    /// Sets the gain curve.
    pub fn set_curve(&mut self, curve: CrossfadeCurve)
        ensures
            final(self)@ == (CrossfaderView { curve, ..old(self)@ }),
    {
        self.curve = curve;
    }

    /// The gain curve.
    pub fn curve(&self) -> (r: CrossfadeCurve)
        ensures
            r == self@.curve,
    {
        self.curve
    }

    /// Starts a fade from its beginning, when crossfading is enabled and the
    /// fade has a length; otherwise nothing changes.
    pub fn start(&mut self)
        requires
            old(self)@.wf(),
        ensures
            final(self)@ == (if old(self)@.enabled && old(self)@.duration > 0 {
                CrossfaderView { active: true, position: 0, ..old(self)@ }
            } else {
                old(self)@
            }),
            final(self)@.wf(),
    {
        if self.enabled && self.duration_samples > 0 {
            self.active = true;
            self.position = 0;
        }
    }

    /// Cancels any fade in progress.
    pub fn reset(&mut self)
        ensures
            final(self)@ == (CrossfaderView { active: false, position: 0, ..old(self)@ }),
    {
        self.active = false;
        self.position = 0;
    }

    /// Where a fade in progress stands: `(position, duration)`, with
    /// `position < duration`. `None` when idle, which means the outgoing
    /// track plays at full gain and the incoming one is silent.
    pub fn fade_progress(&self) -> (r: Option<(usize, usize)>)
        requires
            self@.wf(),
        ensures
            r == (if self@.active {
                Some((self@.position as usize, self@.duration as usize))
            } else {
                None::<(usize, usize)>
            }),
            r matches Some((p, d)) ==> p < d,
    {
        if self.active {
            Some((self.position, self.duration_samples))
        } else {
            None
        }
    }

    /// Advances a fade in progress by one frame. Returns whether the fade
    /// ended with this frame; an ended fade goes idle at position zero.
    pub fn advance(&mut self) -> (r: bool)
        requires
            old(self)@.wf(),
        ensures
            r == old(self)@.completes_within(1),
            final(self)@ == old(self)@.advanced(1),
            final(self)@.wf(),
    {
        if !self.active {
            return false;
        }
        self.position = self.position + 1;
        if self.position >= self.duration_samples {
            self.active = false;
            self.position = 0;
            return true;
        }
        false
    }

    /// Advances a fade in progress by `samples` frames. Returns whether the
    /// fade ended within them.
    pub fn advance_by(&mut self, samples: usize) -> (r: bool)
        requires
            old(self)@.wf(),
        ensures
            r == old(self)@.completes_within(samples as nat),
            final(self)@ == old(self)@.advanced(samples as nat),
            final(self)@.wf(),
    {
        if !self.active {
            return false;
        }
        if samples >= self.duration_samples - self.position {
            self.active = false;
            self.position = 0;
            return true;
        }
        self.position = self.position + samples;
        false
    }
}

} // verus!
