//! The two-source provider behind gapless playback.
//!
//! It holds the track being played and, optionally, the one queued after
//! it. When the current track runs dry in the middle of a read, the queued
//! one, already buffered, takes its place within that same read.

use crate::source::{sat_add, spec_remaining_frames, AudioSource, SourceState, SourceView};
use vstd::prelude::*;

verus! {

/// Writes `v` into `out[start..]` and leaves the rest of `out` as it was.
pub fn fill_from<T: Copy>(out: &mut [T], start: usize, v: T)
    ensures
        final(out)@.len() == old(out)@.len(),
        forall|i: int| 0 <= i < start && i < old(out)@.len() ==> final(out)@[i] == old(out)@[i],
        forall|i: int| start <= i < old(out)@.len() ==> final(out)@[i] == v,
{
    let len = out.len();
    let mut i = start;
    while i < len
        invariant
            out@.len() == len,
            len == old(out)@.len(),
            start <= i,
            forall|j: int| 0 <= j < start && j < len ==> out@[j] == old(out)@[j],
            forall|j: int| start <= j < i && j < len ==> out@[j] == v,
        decreases len - i,
    {
        out[i] = v;
        i = i + 1;
    }
}

/// What a read does with the current track after taking samples from it.
#[derive(Debug, Clone, Copy, PartialEq, Eq, Structural)]
pub enum ReadEnd {
    /// The track goes on.
    Continue,
    /// The track is over and the queued one takes its place in this read.
    HandOver,
    /// The track is over and nothing is queued: it leaves the provider.
    Release,
}

/// The decision after `read` of `len` requested samples came from the
/// current track: a short read of a finished track ends it, and a queued
/// track then follows without a gap.
pub open spec fn spec_read_end(read: nat, len: nat, finished: bool, has_next: bool) -> ReadEnd {
    if read < len && finished {
        if has_next {
            ReadEnd::HandOver
        } else {
            ReadEnd::Release
        }
    } else {
        ReadEnd::Continue
    }
}

/// Executable form of [`spec_read_end`].
pub fn read_end(read: usize, len: usize, finished: bool, has_next: bool) -> (r: ReadEnd)
    ensures
        r == spec_read_end(read as nat, len as nat, finished, has_next),
{
    if read < len && finished {
        if has_next {
            ReadEnd::HandOver
        } else {
            ReadEnd::Release
        }
    } else {
        ReadEnd::Continue
    }
}

/// The view of an optional source.
pub open spec fn opt_view<T>(s: Option<AudioSource<T>>) -> Option<SourceView> {
    match s {
        Some(x) => Some(x@),
        None => None,
    }
}

/// What a provider holds, as plain values.
pub ghost struct ProviderView {
    pub current: Option<SourceView>,
    pub next: Option<SourceView>,
    pub sample_rate: u32,
    pub channels: usize,
}

/// Holds the current track and the one queued after it.
#[verifier::reject_recursive_types(T)]
pub struct SourceProvider<T> {
    current: Option<AudioSource<T>>,
    next: Option<AudioSource<T>>,
    output_sample_rate: u32,
    output_channels: usize,
}

impl<T> View for SourceProvider<T> {
    type V = ProviderView;

    closed spec fn view(&self) -> ProviderView {
        ProviderView {
            current: opt_view(self.current),
            next: opt_view(self.next),
            sample_rate: self.output_sample_rate,
            channels: self.output_channels,
        }
    }
}

/// A source whose frame counts are defined.
pub open spec fn source_ok(s: Option<SourceView>) -> bool {
    s matches Some(v) ==> v.info.channels > 0
}

impl ProviderView {
    /// Every source held has at least one channel.
    pub open spec fn wf(self) -> bool {
        source_ok(self.current) && source_ok(self.next)
    }
}

impl<T: Copy> SourceProvider<T> {
    /// An empty provider for output at `output_sample_rate` with
    /// `output_channels` channels.
    pub fn new(output_sample_rate: u32, output_channels: usize) -> (r: Self)
        ensures
            r@ == (ProviderView {
                current: None,
                next: None,
                sample_rate: output_sample_rate,
                channels: output_channels,
            }),
    {
        SourceProvider { current: None, next: None, output_sample_rate, output_channels }
    }

    /// Installs `source` as the current track; a track it replaces is told to
    /// stop decoding. The queued track stays.
    pub fn set_current(&mut self, source: AudioSource<T>)
        requires
            old(self)@.wf(),
            source@.info.channels > 0,
        ensures
            final(self)@ == (ProviderView { current: Some(source@), ..old(self)@ }),
            final(self)@.wf(),
    {
        if let Some(old_source) = &self.current {
            old_source.signal_stop();
        }
        self.current = Some(source);
    }

    /// Queues `source` to follow the current track; a track it replaces in
    /// the queue is told to stop decoding. The current track stays.
    pub fn queue_next(&mut self, source: AudioSource<T>)
        requires
            old(self)@.wf(),
            source@.info.channels > 0,
        ensures
            final(self)@ == (ProviderView { next: Some(source@), ..old(self)@ }),
            final(self)@.wf(),
    {
        if let Some(old_source) = &self.next {
            old_source.signal_stop();
        }
        self.next = Some(source);
    }

    /// Whether a track is queued.
    pub fn has_next(&self) -> (r: bool)
        ensures
            r == self@.next.is_some(),
    {
        self.next.is_some()
    }

    /// Whether a track is current.
    pub fn has_current(&self) -> (r: bool)
        ensures
            r == self@.current.is_some(),
    {
        self.current.is_some()
    }

    /// The current track.
    pub fn current(&self) -> (r: Option<&AudioSource<T>>)
        ensures
            match r {
                Some(s) => self@.current == Some(s@),
                None => self@.current.is_none(),
            },
    {
        self.current.as_ref()
    }

    /// The queued track.
    pub fn next(&self) -> (r: Option<&AudioSource<T>>)
        ensures
            match r {
                Some(s) => self@.next == Some(s@),
                None => self@.next.is_none(),
            },
    {
        self.next.as_ref()
    }

    /// Makes the queued track current and returns the one it replaces, which
    /// is told to stop decoding. The queue is then empty.
    pub fn advance_to_next(&mut self) -> (r: Option<AudioSource<T>>)
        requires
            old(self)@.wf(),
        ensures
            opt_view(r) == old(self)@.current,
            final(self)@ == (ProviderView { current: old(self)@.next, next: None, ..old(self)@ }),
            final(self)@.wf(),
    {
        let old_current = self.current.take();
        if let Some(s) = &old_current {
            s.signal_stop();
        }
        self.current = self.next.take();
        old_current
    }

    /// Drops both tracks, telling their decoders to stop.
    pub fn stop(&mut self)
        ensures
            final(self)@ == (ProviderView { current: None, next: None, ..old(self)@ }),
            final(self)@.wf(),
    {
        if let Some(s) = &self.current {
            s.signal_stop();
        }
        if let Some(s) = &self.next {
            s.signal_stop();
        }
        self.current = None;
        self.next = None;
    }

    /// Fills `out` from the current track and returns how many samples came
    /// from tracks, with `silence` after them. When the current track runs
    /// out within the read (see [`read_end`]) it is returned: a queued track
    /// then becomes current at once and fills the rest of `out`; with none
    /// queued the provider is left without a current track.
    pub fn read(&mut self, out: &mut [T], silence: T) -> (r: (usize, Option<AudioSource<T>>))
        requires
            old(self)@.wf(),
        ensures
            final(self)@.wf(),
            r.0 <= old(out)@.len(),
            final(out)@.len() == old(out)@.len(),
            forall|i: int| r.0 <= i < final(out)@.len() ==> final(out)@[i] == silence,
            final(self)@.sample_rate == old(self)@.sample_rate,
            final(self)@.channels == old(self)@.channels,
            old(self)@.current.is_none() ==> r.0 == 0 && r.1.is_none() && final(self)@
                == old(self)@,
            (old(self)@.current matches Some(o) && o.state == SourceState::Finished)
                && r.0 < old(out)@.len() ==> r.1.is_some(),
            r.1.is_none() && old(self)@.current.is_some() && r.0 < old(out)@.len() ==> (
            final(self)@.current matches Some(c) && c.state != SourceState::Finished),
            r.1.is_none() ==> {
                &&& final(self)@.next == old(self)@.next
                &&& match (final(self)@.current, old(self)@.current) {
                    (Some(c), Some(o)) => c.info == o.info && c.position == sat_add(
                        o.position,
                        r.0 as nat,
                    ),
                    (None, None) => true,
                    _ => false,
                }
            },
            r.1 matches Some(ended) ==> {
                &&& old(self)@.current matches Some(o)
                &&& ended@.info == o.info
                &&& final(self)@.next.is_none()
                &&& match old(self)@.next {
                    Some(n) => {
                        &&& final(self)@.current matches Some(c)
                        &&& c.info == n.info
                        &&& exists|a: nat|
                            a <= r.0 && ended@.position == sat_add(o.position, a) && c.position
                                == sat_add(n.position, (r.0 - a) as nat)
                    },
                    None => {
                        &&& final(self)@.current.is_none()
                        &&& r.0 < old(out)@.len()
                        &&& ended@.position == sat_add(o.position, r.0 as nat)
                    },
                }
            },
    {
        let len = out.len();
        let (n, finished) = match &mut self.current {
            None => {
                fill_from(out, 0, silence);
                return (0, None);
            },
            Some(cur) => {
                let n = cur.read(out);
                (n, cur.is_finished())
            },
        };
        match read_end(n, len, finished, self.next.is_some()) {
            ReadEnd::Continue => {
                fill_from(out, n, silence);
                (n, None)
            },
            ReadEnd::Release => {
                let ended = self.current.take();
                fill_from(out, n, silence);
                (n, ended)
            },
            ReadEnd::HandOver => {
                let ended = self.current.take();
                self.current = self.next.take();
                let m = match &mut self.current {
                    Some(cur) => cur.read_into(out, n),
                    None => 0,
                };
                fill_from(out, n + m, silence);
                proof {
                    let a = n as nat;
                    assert(a <= n + m);
                    assert((n + m) - a == m);
                }
                (n + m, ended)
            },
        }
    }

    /// Whether the next track should be loaded now: nothing is queued and the
    /// current track has fewer than `lookahead_frames` frames left.
    pub fn should_load_next(&self, lookahead_frames: u64) -> (r: bool)
        requires
            self@.wf(),
        ensures
            r == (self@.next.is_none() && match self@.current {
                Some(c) => spec_remaining_frames(c) < lookahead_frames,
                None => false,
            }),
    {
        if self.next.is_some() {
            return false;
        }
        match &self.current {
            Some(c) => c.remaining_frames() < lookahead_frames,
            None => false,
        }
    }

    /// Fills `a` from the current track and `b` from the queued one, each
    /// followed by `silence`, for mixing the two in a crossfade. Returns how
    /// many samples each track gave. No track is handed over.
    pub fn read_pair(&mut self, a: &mut [T], b: &mut [T], silence: T) -> (r: (usize, usize))
        requires
            old(self)@.wf(),
        ensures
            final(self)@.wf(),
            r.0 <= old(a)@.len(),
            r.1 <= old(b)@.len(),
            final(a)@.len() == old(a)@.len(),
            final(b)@.len() == old(b)@.len(),
            forall|i: int| r.0 <= i < final(a)@.len() ==> final(a)@[i] == silence,
            forall|i: int| r.1 <= i < final(b)@.len() ==> final(b)@[i] == silence,
            final(self)@.sample_rate == old(self)@.sample_rate,
            final(self)@.channels == old(self)@.channels,
            old(self)@.current.is_none() ==> r.0 == 0 && final(self)@.current.is_none(),
            old(self)@.next.is_none() ==> r.1 == 0 && final(self)@.next.is_none(),
            old(self)@.current matches Some(o) ==> final(self)@.current matches Some(c) && c.info
                == o.info && c.position == sat_add(o.position, r.0 as nat),
            old(self)@.next matches Some(o) ==> final(self)@.next matches Some(c) && c.info
                == o.info && c.position == sat_add(o.position, r.1 as nat),
    {
        let ra = match &mut self.current {
            Some(cur) => cur.read(a),
            None => 0,
        };
        let rb = match &mut self.next {
            Some(nx) => nx.read(b),
            None => 0,
        };
        fill_from(a, ra, silence);
        fill_from(b, rb, silence);
        (ra, rb)
    }
}

} // verus!
