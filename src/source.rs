//! Ring-buffered track sources and the provider that plays them back to back.
//!
//! A decoded track flows through a single-producer/single-consumer FIFO: the
//! decoder thread holds the [`SourceProducer`] end and the output callback the
//! [`AudioSource`] end. The FIFO itself is ringbuf's lock-free ring; what the
//! other thread does to it between two calls is unknown here, so each call on
//! it promises only what holds whatever that thread did.

use std::sync::atomic::{AtomicBool, Ordering};
use ringbuf::traits::{Consumer, Observer, Producer, Split};
use std::sync::Arc;
use vstd::prelude::*;

verus! {

/// Capacity of each source's FIFO, in samples: five seconds of 48 kHz stereo.
pub const SOURCE_BUFFER_SIZE: usize = 480_000;

/// Consumer end of a sample FIFO.
#[verifier::external_body]
#[verifier::reject_recursive_types(T)]
pub struct SampleReader<T> {
    cons: ringbuf::HeapCons<T>,
}

/// Producer end of a sample FIFO.
#[verifier::external_body]
#[verifier::reject_recursive_types(T)]
pub struct SampleWriter<T> {
    prod: ringbuf::HeapProd<T>,
}

/// Relies on ringbuf's `HeapRb::new` and `split`: a FIFO of `capacity` slots,
/// handed out as its two ends. `HeapRb::new` panics on a zero capacity.
#[verifier::external_body]
fn new_fifo<T>(capacity: usize) -> (SampleWriter<T>, SampleReader<T>)
    requires
        capacity > 0,
{
    let (prod, cons) = ringbuf::HeapRb::<T>::new(capacity).split();
    (SampleWriter { prod }, SampleReader { cons })
}

/// Relies on ringbuf's `Consumer::pop_slice`: moves up to `out.len() - start`
/// of the oldest samples into `out[start..]`, front first, and returns how
/// many; it writes nothing past them.
#[verifier::external_body]
fn fifo_pop<T: Copy>(r: &mut SampleReader<T>, out: &mut [T], start: usize) -> (n: usize)
    requires
        start <= old(out)@.len(),
    ensures
        n <= old(out)@.len() - start,
        final(out)@.len() == old(out)@.len(),
        forall|i: int|
            0 <= i < final(out)@.len() && !(start <= i < start + n) ==> final(out)@[i]
                == old(out)@[i],
{
    r.cons.pop_slice(&mut out[start..])
}

/// Relies on ringbuf's `Observer::is_empty`, as the consumer sees it.
#[verifier::external_body]
fn fifo_is_empty<T>(r: &SampleReader<T>) -> bool {
    r.cons.is_empty()
}

/// Relies on ringbuf's `Observer::occupied_len`, as the consumer sees it.
#[verifier::external_body]
fn fifo_occupied<T>(r: &SampleReader<T>) -> usize {
    r.cons.occupied_len()
}

/// Relies on ringbuf's `Producer::push_slice`: appends as many of
/// `samples[start..]` as there is room for, front first, and returns how many.
#[verifier::external_body]
fn fifo_push<T: Copy>(w: &mut SampleWriter<T>, samples: &[T], start: usize) -> (n: usize)
    requires
        start <= samples@.len(),
    ensures
        n <= samples@.len() - start,
{
    w.prod.push_slice(&samples[start..])
}

/// Relies on ringbuf's `Observer::vacant_len`, as the producer sees it.
#[verifier::external_body]
fn fifo_vacant<T>(w: &SampleWriter<T>) -> usize {
    w.prod.vacant_len()
}

/// Relies on `Arc::clone`: a second handle on the same flag.
#[verifier::external_body]
fn share_flag(f: &Arc<AtomicBool>) -> Arc<AtomicBool> {
    Arc::clone(f)
}

/// Metadata of one track.
#[derive(Debug, Clone)]
pub struct SourceInfo {
    /// Path of the audio file.
    pub path: String,
    /// Sample rate of the file, before resampling.
    pub original_sample_rate: u32,
    /// Sample rate of the samples in the FIFO.
    pub output_sample_rate: u32,
    /// Number of interleaved channels.
    pub channels: usize,
    /// Length of the track in interleaved samples at the output rate.
    pub total_samples: u64,
}

/// Lifecycle of a source.
#[derive(Debug, Clone, Copy, PartialEq, Eq, Structural)]
pub enum SourceState {
    /// Being decoded, not yet buffered enough to play.
    Loading,
    /// Buffered enough to play.
    Ready,
    /// Being played.
    Playing,
    /// Drained after the decoder finished.
    Finished,
    /// The decoder failed.
    Error,
}

/// The state a source moves to after a read, from what the read saw: whether
/// the decoder had finished and whether the FIFO was then empty. Only a
/// drained FIFO of a finished decoder ends the track.
pub open spec fn spec_state_after_read(
    state: SourceState,
    decoder_done: bool,
    fifo_empty: bool,
) -> SourceState {
    if decoder_done && fifo_empty {
        SourceState::Finished
    } else {
        state
    }
}

/// A finished decoder's track keeps its state while samples remain in the
/// FIFO and finishes once the FIFO is drained; an unfinished decoder's track
/// never finishes on a read.
pub proof fn lemma_finish_only_when_drained(state: SourceState, fifo_empty: bool)
    ensures
        spec_state_after_read(state, true, false) == state,
        spec_state_after_read(state, true, true) == SourceState::Finished,
        spec_state_after_read(state, false, fifo_empty) == state,
{
}

/// Whether a track is over, from its state and what was seen of its
/// decoder and FIFO: marked finished, or a finished decoder with nothing left.
pub open spec fn spec_is_over(state: SourceState, decoder_done: bool, fifo_empty: bool) -> bool {
    state == SourceState::Finished || (decoder_done && fifo_empty)
}

/// Executable form of [`spec_is_over`].
pub fn is_over(state: SourceState, decoder_done: bool, fifo_empty: bool) -> (r: bool)
    ensures
        r == spec_is_over(state, decoder_done, fifo_empty),
{
    state == SourceState::Finished || (decoder_done && fifo_empty)
}

/// Executable form of [`spec_state_after_read`].
pub fn state_after_read(state: SourceState, decoder_done: bool, fifo_empty: bool) -> (r:
    SourceState)
    ensures
        r == spec_state_after_read(state, decoder_done, fifo_empty),
{
    if decoder_done && fifo_empty {
        SourceState::Finished
    } else {
        state
    }
}

/// Samples needed before a track may start: half a second at `rate`.
pub open spec fn preroll_samples(rate: u32, channels: usize) -> int {
    (rate / 2) as int * channels as int
}

/// Whether `occupied` buffered samples, or a finished decoder, let a track
/// start.
pub fn enough_buffered(occupied: usize, decoder_done: bool, rate: u32, channels: usize) -> (r:
    bool)
    ensures
        r == (occupied >= preroll_samples(rate, channels) || decoder_done),
{
    if decoder_done {
        return true;
    }
    let half: usize = (rate / 2) as usize;
    if half == 0 {
        return true;
    }
    if channels > usize::MAX / half {
        proof {
            let m = usize::MAX as int;
            let h = half as int;
            let c = channels as int;
            assert(h * (m / h) + m % h == m) by (nonlinear_arith)
                requires h > 0;
            assert(m % h < h) by (nonlinear_arith)
                requires h > 0;
            assert(h * c > m) by (nonlinear_arith)
                requires c >= m / h + 1, h > 0, h * (m / h) + m % h == m, m % h < h;
            assert(preroll_samples(rate, channels) == h * c);
        }
        return false;
    }
    proof {
        assert(half * channels <= half * (usize::MAX / half)) by (nonlinear_arith)
            requires channels <= usize::MAX / half, half > 0;
        assert(half * (usize::MAX / half) <= usize::MAX) by (nonlinear_arith)
            requires half > 0;
    }
    occupied >= half * channels
}

/// What a source is, as plain values.
pub ghost struct SourceView {
    pub info: SourceInfo,
    pub state: SourceState,
    pub position: nat,
}

/// Consumer end of one track: the output callback reads its samples.
#[verifier::reject_recursive_types(T)]
pub struct AudioSource<T> {
    /// Track metadata.
    pub info: SourceInfo,
    state: SourceState,
    reader: SampleReader<T>,
    decoder_finished: Arc<AtomicBool>,
    position: u64,
    stop_signal: Arc<AtomicBool>,
}

/// Producer end of one track: the decoder thread writes its samples.
#[verifier::reject_recursive_types(T)]
pub struct SourceProducer<T> {
    writer: SampleWriter<T>,
    decoder_finished: Arc<AtomicBool>,
    stop_signal: Arc<AtomicBool>,
    samples_written: u64,
}

impl<T> View for AudioSource<T> {
    type V = SourceView;

    closed spec fn view(&self) -> SourceView {
        SourceView { info: self.info, state: self.state, position: self.position as nat }
    }
}

/// `a + b`, held at `u64::MAX`.
pub open spec fn sat_add(a: nat, b: nat) -> nat {
    if a + b > u64::MAX {
        u64::MAX as nat
    } else {
        a + b
    }
}

/// Frames of a track not yet consumed.
pub open spec fn spec_remaining_frames(v: SourceView) -> nat {
    (if v.info.total_samples > v.position {
        (v.info.total_samples - v.position) as nat
    } else {
        0nat
    }) / (v.info.channels as nat)
}

/// A read moves the position forward by what it returned, or holds it at
/// its ceiling: it never goes back.
pub proof fn lemma_position_never_decreases(position: nat, n: nat)
    requires
        position <= u64::MAX,
    ensures
        sat_add(position, n) >= position,
        position + n <= u64::MAX ==> sat_add(position, n) == position + n,
{
}

impl<T: Copy> AudioSource<T> {
    /// A source for the track `info` and the producer that fills it. The
    /// source starts in `Loading` at position zero.
    pub fn new(info: SourceInfo) -> (r: (Self, SourceProducer<T>))
        ensures
            r.0@ == (SourceView { info, state: SourceState::Loading, position: 0 }),
            r.1.samples_written_spec() == 0,
    {
        let (writer, reader) = new_fifo::<T>(SOURCE_BUFFER_SIZE);
        let decoder_finished = Arc::new(AtomicBool::new(false));
        let stop_signal = Arc::new(AtomicBool::new(false));
        let producer = SourceProducer {
            writer,
            decoder_finished: share_flag(&decoder_finished),
            stop_signal: share_flag(&stop_signal),
            samples_written: 0,
        };
        let source = AudioSource {
            info,
            state: SourceState::Loading,
            reader,
            decoder_finished,
            position: 0,
            stop_signal,
        };
        (source, producer)
    }

    /// The track's metadata.
    pub fn info(&self) -> (r: &SourceInfo)
        ensures
            *r == self@.info,
    {
        &self.info
    }

    /// The lifecycle state.
    pub fn state(&self) -> (r: SourceState)
        ensures
            r == self@.state,
    {
        self.state
    }

    /// Marks a loading source as ready; any other state stays.
    pub fn set_ready(&mut self)
        ensures
            final(self)@ == (if old(self)@.state == SourceState::Loading {
                SourceView { state: SourceState::Ready, ..old(self)@ }
            } else {
                old(self)@
            }),
    {
        if self.state == SourceState::Loading {
            self.state = SourceState::Ready;
        }
    }

    /// Marks the source as playing.
    pub fn set_playing(&mut self)
        ensures
            final(self)@ == (SourceView { state: SourceState::Playing, ..old(self)@ }),
    {
        self.state = SourceState::Playing;
    }

    /// Whether the track is over: marked finished, or its decoder is done and
    /// its FIFO is empty at the moment of the call.
    pub fn is_finished(&self) -> (r: bool)
        ensures
            exists|done: bool, empty: bool| r == spec_is_over(self@.state, done, empty),
            self@.state == SourceState::Finished ==> r,
    {
        let done = self.decoder_finished.load(Ordering::Acquire);
        let empty = fifo_is_empty(&self.reader);
        is_over(self.state, done, empty)
    }

    /// Interleaved samples consumed so far.
    pub fn position_samples(&self) -> (r: u64)
        ensures
            r == self@.position,
    {
        self.position
    }

    /// Frames consumed so far.
    pub fn position_frames(&self) -> (r: u64)
        requires
            self@.info.channels > 0,
        ensures
            r == self@.position / (self@.info.channels as nat),
    {
        self.position / (self.info.channels as u64)
    }

    /// Frames of the track not yet consumed.
    pub fn remaining_frames(&self) -> (r: u64)
        requires
            self@.info.channels > 0,
        ensures
            r == spec_remaining_frames(self@),
    {
        let remaining = if self.info.total_samples > self.position {
            self.info.total_samples - self.position
        } else {
            0
        };
        remaining / (self.info.channels as u64)
    }

    /// Samples waiting in the FIFO.
    pub fn buffered_samples(&self) -> usize {
        fifo_occupied(&self.reader)
    }

    /// Whether half a second of audio is buffered, or the decoder is done.
    pub fn has_enough_buffer(&self) -> (r: bool)
        ensures
            preroll_samples(self@.info.output_sample_rate, self@.info.channels) == 0 ==> r,
    {
        let occupied = fifo_occupied(&self.reader);
        let done = self.decoder_finished.load(Ordering::Acquire);
        enough_buffered(occupied, done, self.info.output_sample_rate, self.info.channels)
    }

    /// Moves up to `out.len() - start` samples into `out[start..]` and returns
    /// how many; the rest of `out` is untouched. The position grows by that
    /// count, and the track ends when its decoder is done and nothing is left.
    pub fn read_into(&mut self, out: &mut [T], start: usize) -> (n: usize)
        requires
            start <= old(out)@.len(),
        ensures
            n <= old(out)@.len() - start,
            final(out)@.len() == old(out)@.len(),
            forall|i: int|
                0 <= i < final(out)@.len() && !(start <= i < start + n) ==> final(out)@[i]
                    == old(out)@[i],
            final(self)@.position == sat_add(old(self)@.position, n as nat),
            final(self)@.info == old(self)@.info,
            exists|done: bool, empty: bool|
                final(self)@.state == spec_state_after_read(old(self)@.state, done, empty),
    {
        let n = fifo_pop(&mut self.reader, out, start);
        self.position = self.position.saturating_add(n as u64);
        let done = self.decoder_finished.load(Ordering::Acquire);
        let empty = fifo_is_empty(&self.reader);
        self.state = state_after_read(self.state, done, empty);
        n
    }

    /// Moves up to `out.len()` samples into `out`; see [`AudioSource::read_into`].
    pub fn read(&mut self, out: &mut [T]) -> (n: usize)
        ensures
            n <= old(out)@.len(),
            final(out)@.len() == old(out)@.len(),
            forall|i: int| n <= i < final(out)@.len() ==> final(out)@[i] == old(out)@[i],
            final(self)@.position == sat_add(old(self)@.position, n as nat),
            final(self)@.info == old(self)@.info,
            exists|done: bool, empty: bool|
                final(self)@.state == spec_state_after_read(old(self)@.state, done, empty),
    {
        self.read_into(out, 0)
    }

    /// Tells the decoder to stop.
    pub fn signal_stop(&self) {
        self.stop_signal.store(true, Ordering::Release);
    }
}

impl<T: Copy> SourceProducer<T> {
    /// Samples written so far.
    pub closed spec fn samples_written_spec(&self) -> nat {
        self.samples_written as nat
    }

    /// Appends as many of `samples` as fit and returns how many.
    pub fn write(&mut self, samples: &[T]) -> (n: usize)
        ensures
            n <= samples@.len(),
            final(self).samples_written_spec() == sat_add(
                old(self).samples_written_spec(),
                n as nat,
            ),
    {
        self.write_from(samples, 0)
    }

    /// Appends as many of `samples[start..]` as fit and returns how many.
    pub fn write_from(&mut self, samples: &[T], start: usize) -> (n: usize)
        requires
            start <= samples@.len(),
        ensures
            n <= samples@.len() - start,
            final(self).samples_written_spec() == sat_add(
                old(self).samples_written_spec(),
                n as nat,
            ),
    {
        let n = fifo_push(&mut self.writer, samples, start);
        self.samples_written = self.samples_written.saturating_add(n as u64);
        n
    }

    /// Whether the consumer asked the decoder to stop.
    pub fn should_stop(&self) -> bool {
        self.stop_signal.load(Ordering::Acquire)
    }

    /// Free slots in the FIFO.
    pub fn available_space(&self) -> usize {
        fifo_vacant(&self.writer)
    }

    /// Whether `size` samples fit in the FIFO now.
    pub fn can_write(&self, size: usize) -> bool {
        fifo_vacant(&self.writer) >= size
    }

    /// Marks the track as fully decoded.
    pub fn finish(&self) {
        self.decoder_finished.store(true, Ordering::Release);
    }

    /// Samples written so far.
    pub fn samples_written(&self) -> (r: u64)
        ensures
            r == self.samples_written_spec(),
    {
        self.samples_written
    }
}

} // verus!
