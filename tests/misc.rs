use audio_engine::api::state_label;
use audio_engine::commands::PlaybackState;
use audio_engine::decoder::{
    after_push, on_decode, on_packet, push_pending, DecodeOutcome, DecodeStep, DecoderError,
    PacketOutcome, PushStep,
};
use audio_engine::mixer::{callback_buffer_lens, choose_path, speed_read_len, CallbackPath};
use audio_engine::scanner::{audio_format_of, deleted_paths, is_supported_format, needs_processing};

#[test]
fn state_codes_round_trip() {
    let all = [
        PlaybackState::Idle,
        PlaybackState::Playing,
        PlaybackState::Paused,
        PlaybackState::Buffering,
        PlaybackState::Crossfading,
        PlaybackState::Stopped,
    ];
    for (i, s) in all.iter().enumerate() {
        assert_eq!(s.code(), i as u8);
        assert_eq!(PlaybackState::from_code(s.code()), *s);
    }
    assert_eq!(PlaybackState::from_code(200), PlaybackState::Idle);
    assert_eq!(PlaybackState::default(), PlaybackState::Idle);
}

#[test]
fn state_labels() {
    assert_eq!(state_label(None), "uninitialized");
    assert_eq!(state_label(Some(PlaybackState::Crossfading)), "crossfading");
    assert_eq!(PlaybackState::Buffering.tag(), "buffering");
    assert_eq!(PlaybackState::Stopped.tag(), "stopped");
    assert_eq!(PlaybackState::Paused.tag(), "paused");
}

#[test]
fn paused_callback_writes_silence() {
    assert_eq!(choose_path(true, true, true, true, true, true), CallbackPath::Silence);
    assert_eq!(choose_path(false, false, true, false, false, true), CallbackPath::Silence);
    assert_eq!(choose_path(false, true, false, false, false, true), CallbackPath::Silence);
}

#[test]
fn callback_paths() {
    assert_eq!(choose_path(false, true, true, true, true, false), CallbackPath::Crossfade);
    assert_eq!(choose_path(false, true, true, true, false, true), CallbackPath::Direct);
    assert_eq!(choose_path(false, true, true, false, false, true), CallbackPath::Direct);
    assert_eq!(choose_path(false, true, true, false, true, false), CallbackPath::Resample);
}

#[test]
fn speed_read_lengths() {
    // 1024 output frames at half speed read 512 frames and two more.
    assert_eq!(speed_read_len(512, 2), Some(1028));
    // At double speed they read 2048 frames and two more.
    assert_eq!(speed_read_len(2048, 2), Some(4100));
    assert_eq!(speed_read_len(usize::MAX, 2), None);
    assert_eq!(speed_read_len(usize::MAX, 0), Some(0));
}

#[test]
fn scan_decisions() {
    assert!(needs_processing(None, 0));
    assert!(needs_processing(Some(10), 11));
    assert!(!needs_processing(Some(10), 10));
    assert!(!needs_processing(Some(10), 9));
}

#[test]
fn supported_formats() {
    assert_eq!(audio_format_of("FLAC"), Some("flac".to_string()));
    assert_eq!(audio_format_of("Mp3"), Some("mp3".to_string()));
    assert_eq!(audio_format_of("wav"), Some("wav".to_string()));
    assert_eq!(audio_format_of("txt"), None);
    assert_eq!(audio_format_of(""), None);
    assert!(is_supported_format(&"m4a".to_string()));
    assert!(is_supported_format(&"ogg".to_string()));
    assert!(!is_supported_format(&"OGG".to_string()));
}

#[test]
fn deleted_paths_keep_known_order() {
    let known = vec!["/a.mp3".to_string(), "/b.mp3".to_string(), "/c.mp3".to_string()];
    let found = vec!["/c.mp3".to_string(), "/a.mp3".to_string(), "/d.mp3".to_string()];
    assert_eq!(deleted_paths(&known, &found), vec!["/b.mp3".to_string()]);
    assert_eq!(deleted_paths(&known, &vec![]), known);
    assert!(deleted_paths(&vec![], &found).is_empty());
}

#[test]
fn decoder_error_texts() {
    assert_eq!(DecoderError::IoError("gone".to_string()).message(), "I/O error: gone");
    assert_eq!(
        DecoderError::UnsupportedFormat("xyz".to_string()).message(),
        "Unsupported format: xyz"
    );
    assert_eq!(DecoderError::NoAudioTrack.message(), "No audio track found");
    assert_eq!(DecoderError::DecodingFailed("bad".to_string()).message(), "Decoding failed: bad");
    assert_eq!(
        DecoderError::ResamplingFailed("ratio".to_string()).message(),
        "Resampling failed: ratio"
    );
}

#[test]
fn packet_decisions() {
    assert!(matches!(on_packet(true, PacketOutcome::Packet { track_id: 1 }, 1), DecodeStep::Finish));
    assert!(matches!(on_packet(false, PacketOutcome::Packet { track_id: 1 }, 1), DecodeStep::Proceed));
    assert!(matches!(on_packet(false, PacketOutcome::Packet { track_id: 2 }, 1), DecodeStep::Skip));
    assert!(matches!(on_packet(false, PacketOutcome::EndOfStream, 1), DecodeStep::Finish));
    assert!(matches!(on_packet(false, PacketOutcome::ResetRequired, 1), DecodeStep::Reset));
    match on_packet(false, PacketOutcome::Failed("eof?".to_string()), 1) {
        DecodeStep::Fail(e) => assert_eq!(e, DecoderError::DecodingFailed("eof?".to_string())),
        _ => panic!("expected a failure"),
    }
}

#[test]
fn decode_decisions() {
    assert!(matches!(on_decode(DecodeOutcome::Decoded), DecodeStep::Proceed));
    assert!(matches!(on_decode(DecodeOutcome::Corrupt("crc".to_string())), DecodeStep::Skip));
    match on_decode(DecodeOutcome::Failed("codec".to_string())) {
        DecodeStep::Fail(e) => assert_eq!(e.message(), "Decoding failed: codec"),
        _ => panic!("expected a failure"),
    }
}

#[test]
fn callback_buffers_hold_a_tenth_of_a_second() {
    assert_eq!(callback_buffer_lens(48000, 2), Some((9600, 28800)));
    assert_eq!(callback_buffer_lens(44100, 1), Some((4410, 13230)));
    assert_eq!(callback_buffer_lens(48000, usize::MAX), None);
}

#[test]
fn push_steps() {
    assert!(push_pending(false, 0, 10));
    assert!(!push_pending(true, 0, 10));
    assert!(!push_pending(false, 10, 10));
    assert_eq!(after_push(0, 4, 10), PushStep::Next { offset: 4 });
    assert_eq!(after_push(4, 0, 10), PushStep::Wait { offset: 4, min_space: 6 });
    assert_eq!(after_push(0, 0, 5000), PushStep::Wait { offset: 0, min_space: 1024 });
}
