use temprs::player::AudioPlayer;
use temprs::source::{StreamingSource, ANALYZER_BATCH_SAMPLES};
use temprs::tap::{DualFftTap, QueueRead};

fn source(fft: bool, history: bool, quality: u32, now: u64) -> StreamingSource {
    StreamingSource::new(44_100, 2, fft, history, quality, now)
}

#[test]
fn new_source_is_buffering() {
    let s = source(true, false, 1000, 77);
    assert!(s.buffering);
    assert!(!s.initial_buffering_complete);
    assert_eq!(s.samples_received, 0);
    assert_eq!(s.last_sample_ms, 77);
    assert!(!s.has_buffered());
    assert_eq!(s.sample_rate(), 44_100);
    assert_eq!(s.channels(), 2);
    assert_eq!(s.current_frame_len(), None);
    assert_eq!(s.total_duration(), None);
}

#[test]
fn source_emits_silence_on_underrun() {
    let mut s = source(false, false, 1000, 0);
    let out = s.poll(None, 100, false);
    assert_eq!(out.sample, Some(0));
    assert!(!out.force_finished);
    assert!(out.analyzer_batch.is_none());
    assert_eq!(s.last_sample_ms, 0);
    assert_eq!(s.samples_received, 0);
}

#[test]
fn source_hands_out_a_batch_in_order() {
    let mut s = source(false, false, 1000, 0);
    let out = s.poll(Some(vec![5, -6, 7]), 40, false);
    assert_eq!(out.sample, Some(5));
    assert_eq!(s.samples_received, 3);
    assert_eq!(s.last_sample_ms, 40);
    assert!(s.has_buffered());
    assert_eq!(s.next_buffered().sample, Some(-6));
    assert_eq!(s.next_buffered().sample, Some(7));
    assert!(!s.has_buffered());
    assert_eq!(s.poll(None, 41, false).sample, Some(0));
}

#[test]
fn source_ends_on_an_empty_batch() {
    let mut s = source(false, false, 1000, 0);
    let out = s.poll(Some(Vec::new()), 40, false);
    assert_eq!(out.sample, None);
    assert!(!out.force_finished);
    assert_eq!(s.last_sample_ms, 40);
}

#[test]
fn source_buffering_thresholds() {
    let mut s = source(false, false, 1000, 0);
    s.poll(Some(vec![0; 44_100]), 1, false);
    assert!(s.buffering);
    s.sample_index = s.current_samples.len();
    s.poll(Some(vec![0; 1]), 2, false);
    assert!(!s.buffering);
    assert!(!s.initial_buffering_complete);
    s.sample_index = s.current_samples.len();
    s.poll(Some(vec![0; 44_099]), 3, false);
    assert_eq!(s.samples_received, 88_200);
    assert!(!s.initial_buffering_complete);
    s.sample_index = s.current_samples.len();
    s.poll(Some(vec![0; 1]), 4, false);
    assert!(s.initial_buffering_complete);
}

#[test]
fn source_received_count_saturates() {
    let mut s = source(false, false, 1000, 0);
    s.samples_received = usize::MAX - 1;
    s.poll(Some(vec![1, 2, 3]), 1, false);
    assert_eq!(s.samples_received, usize::MAX);
    assert!(s.initial_buffering_complete);
}

#[test]
fn source_timeout_while_buffering() {
    let mut s = source(false, false, 1000, 1_000);
    assert_eq!(s.poll(None, 13_000, false).sample, Some(0));
    let out = s.poll(None, 13_001, false);
    assert_eq!(out.sample, None);
    assert!(out.force_finished);
}

#[test]
fn source_timeout_for_a_history_track() {
    let mut s = source(false, true, 1000, 1_000);
    assert_eq!(s.poll(None, 16_000, false).sample, Some(0));
    let out = s.poll(None, 16_001, false);
    assert_eq!(out.sample, None);
    assert!(out.force_finished);
}

#[test]
fn source_timeout_in_mid_playback() {
    for history in [false, true] {
        let mut s = source(false, history, 1000, 0);
        s.poll(Some(vec![0; 88_201]), 2_000, false);
        s.sample_index = s.current_samples.len();
        assert!(s.initial_buffering_complete);
        assert_eq!(s.poll(None, 7_000, false).sample, Some(0));
        let out = s.poll(None, 7_001, false);
        assert_eq!(out.sample, None);
        assert!(out.force_finished);
    }
}

#[test]
fn source_timeout_scales_with_network_quality() {
    let mut s = source(false, false, 1500, 0);
    assert_eq!(s.poll(None, 18_000, false).sample, Some(0));
    assert!(s.poll(None, 18_001, false).force_finished);
    let mut h = source(false, true, 1500, 0);
    assert_eq!(h.poll(None, 22_500, false).sample, Some(0));
    assert!(h.poll(None, 22_501, false).force_finished);
    let mut z = source(false, false, 0, 10);
    assert_eq!(z.poll(None, 10, false).sample, Some(0));
    assert!(z.poll(None, 11, false).force_finished);
}

#[test]
fn source_ends_cleanly_when_finished_and_buffered() {
    let mut s = source(false, false, 1000, 0);
    s.poll(Some(vec![0; 88_201]), 10, false);
    s.sample_index = s.current_samples.len();
    let out = s.poll(None, 20, true);
    assert_eq!(out.sample, None);
    assert!(!out.force_finished);
    let late = s.poll(None, 1_000_000, true);
    assert_eq!(late.sample, None);
    assert!(!late.force_finished);
}

#[test]
fn source_finished_before_buffering_is_complete_waits_for_the_timeout() {
    let mut s = source(false, false, 1000, 0);
    assert_eq!(s.poll(None, 100, true).sample, Some(0));
    let out = s.poll(None, 12_001, true);
    assert_eq!(out.sample, None);
    assert!(out.force_finished);
}

#[test]
fn stuck_stream_makes_the_session_finished() {
    let mut s = source(false, false, 1000, 0);
    let out = s.poll(None, 12_001, false);
    assert!(out.force_finished);
    let p = AudioPlayer::new_and_play_cached(String::new(), String::new(), 1, 180_000, false, 0);
    assert!(!p.is_finished(12_050, true, false));
    assert!(p.is_finished(12_050, true, out.force_finished));
}

#[test]
fn source_sends_played_samples_to_the_analyzer_in_batches() {
    let mut s = source(true, false, 1000, 0);
    let samples: Vec<i16> = (0..2400).map(|i| i as i16).collect();
    let mut batches: Vec<Vec<i16>> = Vec::new();
    let first = s.poll(Some(samples.clone()), 1, false);
    assert_eq!(first.sample, Some(0));
    assert!(first.analyzer_batch.is_none());
    let mut played = vec![0i16];
    while s.has_buffered() {
        let out = s.next_buffered();
        played.push(out.sample.unwrap());
        if let Some(batch) = out.analyzer_batch {
            batches.push(batch);
        }
    }
    assert_eq!(played, samples);
    assert_eq!(batches.len(), 2);
    assert_eq!(batches[0].len(), ANALYZER_BATCH_SAMPLES);
    assert_eq!(batches[0], samples[..1152].to_vec());
    assert_eq!(batches[1], samples[1152..2304].to_vec());
    assert_eq!(s.fft_buffer, samples[2304..].to_vec());
}

#[test]
fn source_without_analyzer_gathers_nothing() {
    let mut s = source(false, false, 1000, 0);
    s.poll(Some(vec![1; 3000]), 1, false);
    while s.has_buffered() {
        assert!(s.next_buffered().analyzer_batch.is_none());
    }
    assert!(s.fft_buffer.is_empty());
}

#[test]
fn tap_exists_only_with_all_three_cells() {
    assert!(DualFftTap::new(true, true, true).is_some());
    assert!(DualFftTap::new(false, true, true).is_none());
    assert!(DualFftTap::new(true, false, true).is_none());
    assert!(DualFftTap::new(true, true, false).is_none());
    assert!(DualFftTap::new(false, false, false).is_none());
}

#[test]
fn tap_sleeps_when_both_queues_are_empty() {
    let tap = DualFftTap::new(true, true, true).unwrap();
    let round = tap.round(QueueRead::Empty, QueueRead::Empty);
    assert!(round.batches.is_empty());
    assert!(round.sleep);
    assert!(!round.terminate);
    let round = tap.round(QueueRead::Disconnected, QueueRead::Empty);
    assert!(round.sleep);
    assert!(!round.terminate);
}

#[test]
fn tap_processes_whichever_queue_has_data() {
    let tap = DualFftTap::new(true, true, true).unwrap();
    let round = tap.round(QueueRead::Data(vec![1, 2]), QueueRead::Empty);
    assert_eq!(round.batches, vec![vec![1i16, 2]]);
    assert!(!round.sleep);
    assert!(!round.terminate);
    let round = tap.round(QueueRead::Empty, QueueRead::Data(vec![3]));
    assert_eq!(round.batches, vec![vec![3i16]]);
    assert!(!round.sleep);
    let round = tap.round(QueueRead::Data(vec![1, 2]), QueueRead::Data(vec![3]));
    assert_eq!(round.batches, vec![vec![1i16, 2], vec![3]]);
    assert!(!round.sleep);
    assert!(!round.terminate);
}

#[test]
fn tap_ends_when_the_playback_queue_is_disconnected() {
    let tap = DualFftTap::new(true, true, true).unwrap();
    let round = tap.round(QueueRead::Empty, QueueRead::Disconnected);
    assert!(round.terminate);
    assert!(!round.sleep);
    assert!(round.batches.is_empty());
    let round = tap.round(QueueRead::Data(vec![9]), QueueRead::Disconnected);
    assert!(round.terminate);
    assert!(!round.sleep);
    assert_eq!(round.batches, vec![vec![9i16]]);
}
