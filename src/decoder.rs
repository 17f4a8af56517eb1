//! Decisions of the decoder worker.
//!
//! A worker thread reads packets from a track, decodes them and pushes the
//! samples into the track's FIFO. Reading and decoding happen outside; after
//! each of them the worker asks [`on_packet`] or [`on_decode`] what to do
//! next.

use vstd::prelude::*;
use vstd::string::*;

verus! {

/// Why a track could not be decoded.
#[derive(Debug, Clone, PartialEq, Eq)]
pub enum DecoderError {
    /// The file could not be read; carries the system's message.
    IoError(String),
    /// The container or codec is not supported.
    UnsupportedFormat(String),
    /// The file holds no audio track.
    NoAudioTrack,
    /// A packet could not be read or decoded.
    DecodingFailed(String),
    /// The sample-rate converter failed.
    ResamplingFailed(String),
}

/// The text of each error, as the host sees it.
pub open spec fn error_text(e: DecoderError) -> Seq<char> {
    match e {
        DecoderError::IoError(s) => "I/O error: "@ + s@,
        DecoderError::UnsupportedFormat(s) => "Unsupported format: "@ + s@,
        DecoderError::NoAudioTrack => "No audio track found"@,
        DecoderError::DecodingFailed(s) => "Decoding failed: "@ + s@,
        DecoderError::ResamplingFailed(s) => "Resampling failed: "@ + s@,
    }
}

fn prefixed(prefix: &str, s: &String) -> (r: String)
    ensures
        r@ == prefix@ + s@,
{
    let mut r = String::from_str(prefix);
    r.append(s.as_str());
    r
}

impl DecoderError {
    /// The text of this error.
    pub fn message(&self) -> (r: String)
        ensures
            r@ == error_text(*self),
    {
        proof {
            reveal_strlit("I/O error: ");
            reveal_strlit("Unsupported format: ");
            reveal_strlit("No audio track found");
            reveal_strlit("Decoding failed: ");
            reveal_strlit("Resampling failed: ");
        }
        match self {
            DecoderError::IoError(s) => prefixed("I/O error: ", s),
            DecoderError::UnsupportedFormat(s) => prefixed("Unsupported format: ", s),
            DecoderError::NoAudioTrack => String::from_str("No audio track found"),
            DecoderError::DecodingFailed(s) => prefixed("Decoding failed: ", s),
            DecoderError::ResamplingFailed(s) => prefixed("Resampling failed: ", s),
        }
    }
}

/// What reading the next packet gave.
#[derive(Debug, Clone)]
pub enum PacketOutcome {
    /// A packet of the given track.
    Packet { track_id: u32 },
    /// The stream ended.
    EndOfStream,
    /// The stream changed format; the decoder must be reset.
    ResetRequired,
    /// Reading failed for good; carries the reader's message.
    Failed(String),
}

/// What decoding a packet gave.
#[derive(Debug, Clone)]
pub enum DecodeOutcome {
    /// Samples came out.
    Decoded,
    /// The packet was corrupt; carries the decoder's message.
    Corrupt(String),
    /// Decoding failed for good; carries the decoder's message.
    Failed(String),
}

/// The worker's next move.
#[derive(Debug, Clone)]
pub enum DecodeStep {
    /// Leave the loop and mark the track as fully decoded.
    Finish,
    /// Reset the decoder, then read the next packet.
    Reset,
    /// Drop this packet and read the next one.
    Skip,
    /// Decode this packet, or push the decoded samples.
    Proceed,
    /// Leave the loop with this error.
    Fail(DecoderError),
}

/// The move after reading a packet. A stop request or the end of the stream
/// ends the loop; a format change resets the decoder; packets of other
/// tracks are dropped; a read failure is fatal.
pub fn on_packet(stop_requested: bool, outcome: PacketOutcome, track_id: u32) -> (r: DecodeStep)
    ensures
        stop_requested ==> r is Finish,
        !stop_requested ==> match outcome {
            PacketOutcome::Packet { track_id: t } => if t == track_id {
                r is Proceed
            } else {
                r is Skip
            },
            PacketOutcome::EndOfStream => r is Finish,
            PacketOutcome::ResetRequired => r is Reset,
            PacketOutcome::Failed(m) => r == DecodeStep::Fail(DecoderError::DecodingFailed(m)),
        },
{
    if stop_requested {
        return DecodeStep::Finish;
    }
    match outcome {
        PacketOutcome::Packet { track_id: t } => {
            if t == track_id {
                DecodeStep::Proceed
            } else {
                DecodeStep::Skip
            }
        },
        PacketOutcome::EndOfStream => DecodeStep::Finish,
        PacketOutcome::ResetRequired => DecodeStep::Reset,
        PacketOutcome::Failed(m) => DecodeStep::Fail(DecoderError::DecodingFailed(m)),
    }
}

/// The move after decoding a packet: corrupt packets are skipped, a decoder
/// failure is fatal.
pub fn on_decode(outcome: DecodeOutcome) -> (r: DecodeStep)
    ensures
        match outcome {
            DecodeOutcome::Decoded => r is Proceed,
            DecodeOutcome::Corrupt(_) => r is Skip,
            DecodeOutcome::Failed(m) => r == DecodeStep::Fail(DecoderError::DecodingFailed(m)),
        },
{
    match outcome {
        DecodeOutcome::Decoded => DecodeStep::Proceed,
        DecodeOutcome::Corrupt(_) => DecodeStep::Skip,
        DecodeOutcome::Failed(m) => DecodeStep::Fail(DecoderError::DecodingFailed(m)),
    }
}

/// Whether the worker pushes more of a decoded chunk of `len` samples, of
/// which `offset` are in the FIFO: only while some remain and no stop was
/// requested.
pub fn push_pending(stop_requested: bool, offset: usize, len: usize) -> (r: bool)
    ensures
        r == (!stop_requested && offset < len),
{
    !stop_requested && offset < len
}

/// What follows a push of the rest of a chunk.
#[derive(Debug, Clone, Copy, PartialEq, Eq, Structural)]
pub enum PushStep {
    /// Push again from `offset`.
    Next { offset: usize },
    /// The FIFO was full: wait until `min_space` samples fit (or the wait
    /// gives up, which ends the chunk), then push again from `offset`.
    Wait { offset: usize, min_space: usize },
}

/// The step after `written` samples of the rest of a chunk of `len`, from
/// `offset` on, went into the FIFO. A full FIFO makes the worker wait for
/// room for the rest, or for 1024 samples when more remain.
pub fn after_push(offset: usize, written: usize, len: usize) -> (r: PushStep)
    requires
        offset < len,
        written <= len - offset,
    ensures
        written > 0 ==> r == (PushStep::Next { offset: (offset + written) as usize }),
        written == 0 ==> r == (PushStep::Wait {
            offset,
            min_space: if len - offset < 1024 { (len - offset) as usize } else { 1024 },
        }),
{
    if written > 0 {
        PushStep::Next { offset: offset + written }
    } else {
        let rest = len - offset;
        PushStep::Wait { offset, min_space: if rest < 1024 { rest } else { 1024 } }
    }
}

} // verus!
