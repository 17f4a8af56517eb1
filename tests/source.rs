use audio_engine::provider::{read_end, ReadEnd, SourceProvider};
use audio_engine::resample::{needs_resampling, passthrough, DEFAULT_OUTPUT_SAMPLE_RATE};
use audio_engine::source::{
    enough_buffered, is_over, state_after_read, AudioSource, SourceInfo, SourceProducer, SourceState,
    SOURCE_BUFFER_SIZE,
};

fn info(path: &str, channels: usize, total_samples: u64) -> SourceInfo {
    SourceInfo {
        path: path.to_string(),
        original_sample_rate: 48000,
        output_sample_rate: 48000,
        channels,
        total_samples,
    }
}

fn source(path: &str) -> (AudioSource<f32>, SourceProducer<f32>) {
    AudioSource::new(info(path, 2, 1000))
}

#[test]
fn test_passthrough() {
    assert!(!needs_resampling(48000, 48000));

    let input: Vec<f32> = (0..200).map(|i| i as f32 / 200.0).collect();
    let mut output = vec![0.0; 200];

    let written = passthrough(&input, &mut output);
    assert_eq!(written, 200);
    assert_eq!(input, output);
}

#[test]
fn test_upsampling() {
    assert!(needs_resampling(44100, DEFAULT_OUTPUT_SAMPLE_RATE));
}

#[test]
fn passthrough_into_a_shorter_buffer() {
    let input = vec![1u32, 2, 3, 4];
    let mut output = vec![9u32; 2];
    assert_eq!(passthrough(&input, &mut output), 2);
    assert_eq!(output, vec![1, 2]);
    let mut longer = vec![9u32; 6];
    assert_eq!(passthrough(&input, &mut longer), 4);
    assert_eq!(longer, vec![1, 2, 3, 4, 9, 9]);
}

#[test]
fn new_source_is_loading_at_zero() {
    let (src, prod) = source("a.flac");
    assert_eq!(src.state(), SourceState::Loading);
    assert_eq!(src.position_samples(), 0);
    assert_eq!(src.buffered_samples(), 0);
    assert_eq!(prod.samples_written(), 0);
    assert_eq!(prod.available_space(), SOURCE_BUFFER_SIZE);
    assert!(!src.is_finished());
}

#[test]
fn samples_come_out_in_order_and_position_grows() {
    let (mut src, mut prod) = source("a.flac");
    assert_eq!(prod.write(&[0.1, 0.2, 0.3, 0.4, 0.5]), 5);
    assert_eq!(prod.samples_written(), 5);
    assert_eq!(src.buffered_samples(), 5);
    let mut out = [0.0f32; 3];
    assert_eq!(src.read(&mut out), 3);
    assert_eq!(out, [0.1, 0.2, 0.3]);
    assert_eq!(src.position_samples(), 3);
    let mut out = [7.0f32; 4];
    assert_eq!(src.read(&mut out), 2);
    assert_eq!(out, [0.4, 0.5, 7.0, 7.0]);
    assert_eq!(src.position_samples(), 5);
    assert_eq!(src.position_frames(), 2);
    let mut out = [7.0f32; 4];
    assert_eq!(src.read(&mut out), 0);
    assert_eq!(src.position_samples(), 5);
}

#[test]
fn reads_never_exceed_writes() {
    let (mut src, mut prod) = source("a.flac");
    let mut total_read = 0usize;
    let mut out = [0.0f32; 7];
    for round in 0..10 {
        prod.write(&vec![0.25f32; round * 3]);
        total_read += src.read(&mut out);
        assert!(total_read as u64 <= prod.samples_written());
    }
    assert!(total_read as u64 <= prod.samples_written());
}

#[test]
fn position_never_decreases() {
    let (mut src, mut prod) = source("a.flac");
    let mut last = src.position_samples();
    let mut out = [0.0f32; 5];
    for round in 0..6 {
        prod.write(&vec![0.5f32; round * 2]);
        src.read(&mut out);
        assert!(src.position_samples() >= last);
        last = src.position_samples();
    }
}

#[test]
fn finished_decoder_plays_until_drained() {
    let (mut src, mut prod) = source("a.flac");
    src.set_ready();
    src.set_playing();
    prod.write(&[1.0, 2.0, 3.0, 4.0]);
    prod.finish();
    let mut out = [0.0f32; 2];
    assert_eq!(src.read(&mut out), 2);
    assert_eq!(src.state(), SourceState::Playing);
    assert!(!src.is_finished());
    assert_eq!(src.read(&mut out), 2);
    assert_eq!(src.state(), SourceState::Finished);
    assert!(src.is_finished());
}

#[test]
fn state_after_read_cases() {
    assert_eq!(state_after_read(SourceState::Playing, true, false), SourceState::Playing);
    assert_eq!(state_after_read(SourceState::Playing, true, true), SourceState::Finished);
    assert_eq!(state_after_read(SourceState::Playing, false, true), SourceState::Playing);
    assert_eq!(state_after_read(SourceState::Ready, false, false), SourceState::Ready);
}

#[test]
fn set_ready_only_from_loading() {
    let (mut src, _prod) = source("a.flac");
    src.set_ready();
    assert_eq!(src.state(), SourceState::Ready);
    src.set_playing();
    src.set_ready();
    assert_eq!(src.state(), SourceState::Playing);
}

#[test]
fn preroll_needs_half_a_second_or_a_finished_decoder() {
    assert!(!enough_buffered(47999, false, 48000, 2));
    assert!(enough_buffered(48000, false, 48000, 2));
    assert!(enough_buffered(0, true, 48000, 2));
    assert!(enough_buffered(0, false, 1, 2));
    assert!(!enough_buffered(usize::MAX, false, 48000, usize::MAX));
    let (src, prod) = source("a.flac");
    assert!(!src.has_enough_buffer());
    prod.finish();
    assert!(src.has_enough_buffer());
}

#[test]
fn preroll_fills_with_buffered_samples() {
    let (src, mut prod) = source("a.flac");
    prod.write(&vec![0.0f32; 48000]);
    assert!(src.has_enough_buffer());
}

#[test]
fn write_stops_when_the_fifo_is_full() {
    let (_src, mut prod) = source("a.flac");
    let big = vec![0.5f32; SOURCE_BUFFER_SIZE + 10];
    assert_eq!(prod.write(&big), SOURCE_BUFFER_SIZE);
    assert!(!prod.can_write(1));
    assert_eq!(prod.write(&[1.0]), 0);
    assert_eq!(prod.write_from(&big, big.len()), 0);
}

#[test]
fn stop_signal_reaches_the_producer() {
    let (src, prod) = source("a.flac");
    assert!(!prod.should_stop());
    src.signal_stop();
    assert!(prod.should_stop());
}

#[test]
fn remaining_frames_count_down() {
    let (mut src, mut prod) = AudioSource::<f32>::new(info("a.flac", 2, 10));
    assert_eq!(src.remaining_frames(), 5);
    prod.write(&[0.0; 12]);
    let mut out = [0.0f32; 4];
    src.read(&mut out);
    assert_eq!(src.remaining_frames(), 3);
    let mut out = [0.0f32; 8];
    src.read(&mut out);
    assert_eq!(src.remaining_frames(), 0);
}

#[test]
fn provider_without_current_gives_silence() {
    let mut provider: SourceProvider<f32> = SourceProvider::new(48000, 2);
    let mut out = [3.0f32; 4];
    let (n, ended) = provider.read(&mut out, 0.0);
    assert_eq!(n, 0);
    assert!(ended.is_none());
    assert_eq!(out, [0.0; 4]);
}

#[test]
fn gapless_handoff_within_one_read() {
    let mut provider: SourceProvider<f32> = SourceProvider::new(48000, 2);
    let (a, mut pa) = source("a.flac");
    let (b, mut pb) = source("b.flac");
    pa.write(&[1.0, 2.0]);
    pa.finish();
    pb.write(&[3.0, 4.0, 5.0]);
    provider.set_current(a);
    provider.queue_next(b);
    let mut out = [9.0f32; 6];
    let (n, ended) = provider.read(&mut out, 0.0);
    assert_eq!(n, 5);
    assert_eq!(out, [1.0, 2.0, 3.0, 4.0, 5.0, 0.0]);
    let ended = ended.expect("the first track ends");
    assert_eq!(ended.info().path, "a.flac");
    assert!(!provider.has_next());
    let current = provider.current().expect("the second track is current");
    assert_eq!(current.info().path, "b.flac");
    assert_eq!(current.position_samples(), 3);
}

#[test]
fn no_handoff_while_the_decoder_runs() {
    let mut provider: SourceProvider<f32> = SourceProvider::new(48000, 2);
    let (a, mut pa) = source("a.flac");
    let (b, _pb) = source("b.flac");
    pa.write(&[1.0]);
    provider.set_current(a);
    provider.queue_next(b);
    let mut out = [9.0f32; 3];
    let (n, ended) = provider.read(&mut out, 0.0);
    assert_eq!(n, 1);
    assert!(ended.is_none());
    assert_eq!(out, [1.0, 0.0, 0.0]);
    assert!(provider.has_next());
}

#[test]
fn stop_empties_the_provider() {
    let mut provider: SourceProvider<f32> = SourceProvider::new(48000, 2);
    let (a, pa) = source("a.flac");
    let (b, pb) = source("b.flac");
    provider.set_current(a);
    provider.queue_next(b);
    provider.stop();
    assert!(provider.current().is_none());
    assert!(!provider.has_next());
    assert!(pa.should_stop());
    assert!(pb.should_stop());
}

#[test]
fn replacing_tracks_stops_their_decoders() {
    let mut provider: SourceProvider<f32> = SourceProvider::new(48000, 2);
    let (a, pa) = source("a.flac");
    let (b, pb) = source("b.flac");
    let (c, pc) = source("c.flac");
    let (d, pd) = source("d.flac");
    provider.set_current(a);
    provider.set_current(b);
    provider.queue_next(c);
    provider.queue_next(d);
    assert!(pa.should_stop());
    assert!(!pb.should_stop());
    assert!(pc.should_stop());
    assert!(!pd.should_stop());
    let old = provider.advance_to_next().expect("b was current");
    assert_eq!(old.info().path, "b.flac");
    assert!(pb.should_stop());
    assert_eq!(provider.current().unwrap().info().path, "d.flac");
    assert!(provider.next().is_none());
}

#[test]
fn load_next_when_the_end_is_near() {
    let mut provider: SourceProvider<f32> = SourceProvider::new(48000, 2);
    assert!(!provider.should_load_next(100));
    let (a, _pa) = AudioSource::<f32>::new(info("a.flac", 2, 100));
    provider.set_current(a);
    assert!(provider.should_load_next(51));
    assert!(!provider.should_load_next(50));
    let (b, _pb) = source("b.flac");
    provider.queue_next(b);
    assert!(!provider.should_load_next(51));
}

#[test]
fn read_pair_pads_each_track() {
    let mut provider: SourceProvider<f32> = SourceProvider::new(48000, 2);
    let (a, mut pa) = source("a.flac");
    let (b, mut pb) = source("b.flac");
    pa.write(&[1.0, 2.0, 3.0]);
    pb.write(&[4.0]);
    provider.set_current(a);
    provider.queue_next(b);
    let mut x = [9.0f32; 4];
    let mut y = [9.0f32; 4];
    assert_eq!(provider.read_pair(&mut x, &mut y, 0.0), (3, 1));
    assert_eq!(x, [1.0, 2.0, 3.0, 0.0]);
    assert_eq!(y, [4.0, 0.0, 0.0, 0.0]);
    assert!(provider.has_current());
    assert!(provider.has_next());
}

#[test]
fn last_track_leaves_the_provider_when_drained() {
    let mut provider: SourceProvider<f32> = SourceProvider::new(48000, 2);
    let (a, mut pa) = source("a.flac");
    pa.write(&[1.0, 2.0]);
    pa.finish();
    provider.set_current(a);
    let mut out = [9.0f32; 4];
    let (n, ended) = provider.read(&mut out, 0.0);
    assert_eq!(n, 2);
    assert_eq!(out, [1.0, 2.0, 0.0, 0.0]);
    let ended = ended.expect("the last track ends");
    assert_eq!(ended.info().path, "a.flac");
    assert_eq!(ended.position_samples(), 2);
    assert!(!provider.has_current());
    let (n, ended) = provider.read(&mut out, 0.0);
    assert_eq!(n, 0);
    assert!(ended.is_none());
}

#[test]
fn full_read_keeps_a_finished_decoders_track() {
    let mut provider: SourceProvider<f32> = SourceProvider::new(48000, 2);
    let (a, mut pa) = source("a.flac");
    pa.write(&[1.0, 2.0]);
    pa.finish();
    provider.set_current(a);
    let mut out = [9.0f32; 2];
    let (n, ended) = provider.read(&mut out, 0.0);
    assert_eq!(n, 2);
    assert!(ended.is_none());
    assert!(provider.has_current());
}

#[test]
fn read_end_decisions() {
    assert_eq!(read_end(3, 4, true, true), ReadEnd::HandOver);
    assert_eq!(read_end(3, 4, true, false), ReadEnd::Release);
    assert_eq!(read_end(4, 4, true, true), ReadEnd::Continue);
    assert_eq!(read_end(3, 4, false, true), ReadEnd::Continue);
}

#[test]
fn is_over_cases() {
    assert!(is_over(SourceState::Finished, false, false));
    assert!(is_over(SourceState::Playing, true, true));
    assert!(!is_over(SourceState::Playing, true, false));
    assert!(!is_over(SourceState::Playing, false, true));
}
