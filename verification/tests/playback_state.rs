use std::collections::HashSet;
use temprs::audio_state::{
    seek_backward_target, seek_forward_target, AudioState, PlayOutcome, RepeatMode, ToggleAction,
    TokenLookup,
};
use temprs::autoplay::{
    choose_after_single_track, history_candidates, next_after_single_track, FinishedStep,
    QueuePosition, SingleTrackNext,
};
use temprs::controller::AudioCommand;
use temprs::models::{Track, User};
use temprs::prefetch::PrefetchResult;
use temprs::shader_reload::ShaderReload;
use temprs::volume::{Volume, VolumeControl};

fn track(id: u64) -> Track {
    Track {
        id,
        title: format!("Track {}", id),
        duration: 180_000,
        full_duration: Some(200_000),
        stream_url: Some(format!("https://api.example/tracks/{}/stream", id)),
        permalink_url: Some(format!("https://example/tracks/{}", id)),
        artwork_url: Some(format!("https://img.example/{}-large.jpg", id)),
        user: User { id: 1, username: String::from("artist"), avatar_url: None },
        genre: Some(String::from("dub")),
        playback_count: None,
        streamable: Some(true),
        access: None,
        policy: None,
    }
}

fn state() -> AudioState {
    AudioState::new(VolumeControl::restored(Volume::clamped(800), false), false, RepeatMode::Off)
}

fn token() -> TokenLookup {
    TokenLookup::Token(String::from("token-1"))
}

fn playing(id: u64, now: u64) -> AudioState {
    let mut s = state();
    match s.play_track(id, Some(&track(id)), token(), now) {
        PlayOutcome::Started { .. } => {}
        other => panic!("unexpected outcome {:?}", other),
    }
    s
}

#[test]
fn new_state_has_nothing_loaded() {
    let s = state();
    assert_eq!(s.current_track_id, None);
    assert!(!s.is_playing);
    assert_eq!(s.playback_session.current(), 0);
    assert_eq!(s.volume.volume.permille(), 800);
    assert_eq!(s.repeat_mode, RepeatMode::Off);
    assert!(!s.track_finished_handled);
}

#[test]
fn play_track_starts_playback() {
    let mut s = state();
    s.track_finished_handled = true;
    s.prefetch.triggered = true;
    let t = track(4);
    match s.play_track(4, Some(&t), token(), 9_000) {
        PlayOutcome::Started { command, artwork_url } => {
            match command {
                AudioCommand::Play {
                    url,
                    token,
                    track_id,
                    duration_ms,
                    is_history_track,
                    prefetched_cdn_url,
                } => {
                    assert_eq!(url, "https://api.example/tracks/4/stream");
                    assert_eq!(token, "token-1");
                    assert_eq!(track_id, 4);
                    assert_eq!(duration_ms, 200_000);
                    assert!(!is_history_track);
                    assert_eq!(prefetched_cdn_url, None);
                }
                other => panic!("unexpected command {:?}", other),
            }
            assert_eq!(artwork_url.as_deref(), Some("https://img.example/4-large.jpg"));
        }
        other => panic!("unexpected outcome {:?}", other),
    }
    assert_eq!(s.playback_session.current(), 1);
    assert!(s.is_playing);
    assert_eq!(s.current_track_id, Some(4));
    assert_eq!(s.current_title, "Track 4");
    assert_eq!(s.current_artist, "artist");
    assert_eq!(s.current_genre.as_deref(), Some("dub"));
    assert_eq!(s.current_duration_ms, 200_000);
    assert_eq!(s.current_stream_url.as_deref(), Some("https://api.example/tracks/4/stream"));
    assert_eq!(s.current_permalink_url.as_deref(), Some("https://example/tracks/4"));
    assert_eq!(s.track_start_ms, Some(9_000));
    assert!(!s.track_finished_handled);
    assert!(!s.prefetch.triggered);
}

#[test]
fn play_track_hands_over_the_prefetched_address() {
    let mut s = state();
    let result = s.playback_session.tag(PrefetchResult {
        track_id: 4,
        cdn_url: String::from("https://cdn.example/4.mp3"),
    });
    let session = s.playback_session;
    assert!(s.prefetch.check_prefetch_updates(&session, result, 0));
    match s.play_track(4, Some(&track(4)), token(), 0) {
        PlayOutcome::Started { command: AudioCommand::Play { prefetched_cdn_url, .. }, .. } => {
            assert_eq!(prefetched_cdn_url.as_deref(), Some("https://cdn.example/4.mp3"));
        }
        other => panic!("unexpected outcome {:?}", other),
    }
    match s.play_track(5, Some(&track(5)), token(), 0) {
        PlayOutcome::Started { command: AudioCommand::Play { prefetched_cdn_url, .. }, .. } => {
            assert_eq!(prefetched_cdn_url, None);
        }
        other => panic!("unexpected outcome {:?}", other),
    }
}

#[test]
fn play_track_marks_history_tracks() {
    let mut s = state();
    let mut t = track(4);
    t.full_duration = None;
    t.permalink_url = None;
    match s.play_track(4, Some(&t), token(), 0) {
        PlayOutcome::Started {
            command: AudioCommand::Play { is_history_track, duration_ms, .. },
            ..
        } => {
            assert!(is_history_track);
            assert_eq!(duration_ms, 180_000);
        }
        other => panic!("unexpected outcome {:?}", other),
    }
}

#[test]
fn play_track_not_in_queue() {
    let mut s = playing(1, 0);
    match s.play_track(42, None, token(), 10) {
        PlayOutcome::NotInQueue { message } => assert_eq!(message, "Track 42 not found in queue"),
        other => panic!("unexpected outcome {:?}", other),
    }
    assert_eq!(s.playback_session.current(), 2);
    assert!(!s.is_playing);
    assert_eq!(s.current_track_id, Some(1));
}

#[test]
fn play_track_fetches_a_missing_stream_address() {
    let mut s = state();
    let mut t = track(6);
    t.stream_url = None;
    match s.play_track(6, Some(&t), token(), 10) {
        PlayOutcome::FetchStreamUrl { track_id } => assert_eq!(track_id, 6),
        other => panic!("unexpected outcome {:?}", other),
    }
    assert_eq!(s.playback_session.current(), 1);
    assert!(!s.is_playing);
    assert_eq!(s.current_track_id, None);
}

#[test]
fn play_track_skips_what_cannot_be_played() {
    let mut s = state();
    let mut t = track(6);
    t.policy = Some(String::from("block"));
    match s.play_track(6, Some(&t), token(), 10) {
        PlayOutcome::SkipUnplayable { message } => assert_eq!(
            message,
            "Track 'Track 6' is not playable (geo-blocked or preview-only)"
        ),
        other => panic!("unexpected outcome {:?}", other),
    }
    let mut t = track(7);
    t.streamable = Some(false);
    t.stream_url = None;
    match s.play_track(7, Some(&t), token(), 10) {
        PlayOutcome::SkipUnplayable { .. } => {}
        other => panic!("unexpected outcome {:?}", other),
    }
    assert_eq!(s.current_track_id, None);
    assert_eq!(s.playback_session.current(), 2);
}

#[test]
fn play_track_without_a_token() {
    let mut s = state();
    match s.play_track(6, Some(&track(6)), TokenLookup::NoToken, 10) {
        PlayOutcome::Rejected { message } => assert_eq!(message, "Failed to get authentication token"),
        other => panic!("unexpected outcome {:?}", other),
    }
    assert!(!s.is_playing);
    assert_eq!(s.current_track_id, Some(6));
    assert_eq!(s.track_start_ms, None);
    match s.play_track(6, Some(&track(6)), TokenLookup::SignedOut, 10) {
        PlayOutcome::Rejected { message } => assert_eq!(message, "Authentication required"),
        other => panic!("unexpected outcome {:?}", other),
    }
}

#[test]
fn stop_playback_starts_a_new_session() {
    let mut s = playing(1, 0);
    match s.stop_playback() {
        AudioCommand::Stop => {}
        other => panic!("unexpected command {:?}", other),
    }
    assert_eq!(s.playback_session.current(), 2);
    assert!(!s.is_playing);
    assert_eq!(s.current_track_id, None);
    assert_eq!(s.track_start_ms, None);
}

#[test]
fn seek_to_starts_a_new_session_and_frees_the_prefetch_trigger() {
    let mut s = playing(1, 0);
    s.prefetch.triggered = true;
    match s.seek_to(90_000) {
        AudioCommand::Seek(position) => assert_eq!(position, 90_000),
        other => panic!("unexpected command {:?}", other),
    }
    assert_eq!(s.playback_session.current(), 2);
    assert!(!s.prefetch.triggered);
    assert!(s.is_playing);
}

#[test]
fn transport_changes_outdate_tagged_results() {
    let mut s = state();
    let tagged = s.playback_session.tag(1u8);
    s.play_track(1, Some(&track(1)), token(), 0);
    assert_eq!(s.playback_session.accept(tagged), None);
    let tagged = s.playback_session.tag(2u8);
    s.seek_to(5_000);
    assert_eq!(s.playback_session.accept(tagged), None);
    let tagged = s.playback_session.tag(3u8);
    s.stop_playback();
    assert_eq!(s.playback_session.accept(tagged), None);
    let tagged = s.playback_session.tag(4u8);
    assert_eq!(s.playback_session.accept(tagged), Some(4u8));
}

#[test]
fn reset_track_forgets_the_track() {
    let mut s = playing(1, 0);
    s.reset_track();
    assert_eq!(s.current_track_id, None);
    assert!(s.current_title.is_empty());
    assert!(s.current_artist.is_empty());
    assert_eq!(s.current_genre, None);
    assert_eq!(s.current_duration_ms, 0);
    assert_eq!(s.current_stream_url, None);
    assert_eq!(s.current_permalink_url, None);
    assert_eq!(s.track_start_ms, None);
    assert!(!s.is_playing);
    assert_eq!(s.playback_session.current(), 1);
    assert_eq!(s.volume.volume.permille(), 800);
}

#[test]
fn toggle_playback_cases() {
    let mut s = state();
    assert_eq!(s.toggle_playback(false, 0), ToggleAction::Ignored);
    let mut s = playing(1, 0);
    assert_eq!(s.toggle_playback(false, 10), ToggleAction::Pause);
    assert!(!s.is_playing);
    assert_eq!(s.toggle_playback(false, 20), ToggleAction::Resume);
    assert!(s.is_playing);
    s.toggle_playback(false, 30);
    assert_eq!(s.toggle_playback(true, 40), ToggleAction::Restart(1));
    assert!(!s.is_playing);
    assert_eq!(s.track_start_ms, Some(40));
    s.track_start_ms = None;
    assert_eq!(s.toggle_playback(false, 50), ToggleAction::Restart(1));
    assert_eq!(s.track_start_ms, Some(50));
}

#[test]
fn play_pause_key() {
    let mut s = state();
    assert!(s.play_pause_shortcut().is_none());
    assert!(!s.is_playing);
    let mut s = playing(1, 0);
    assert!(matches!(s.play_pause_shortcut(), Some(AudioCommand::Pause)));
    assert!(!s.is_playing);
    assert!(matches!(s.play_pause_shortcut(), Some(AudioCommand::Resume)));
    assert!(s.is_playing);
}

#[test]
fn shuffle_and_repeat() {
    let mut s = state();
    assert!(s.toggle_shuffle());
    assert!(s.shuffle_mode);
    assert_eq!(s.cycle_repeat_mode(), RepeatMode::All);
    assert!(s.shuffle_mode);
    assert_eq!(s.cycle_repeat_mode(), RepeatMode::One);
    assert!(!s.shuffle_mode);
    assert_eq!(s.cycle_repeat_mode(), RepeatMode::Off);
    assert_eq!(s.repeat_mode, RepeatMode::Off);
    assert!(s.toggle_shuffle());
    assert!(!s.toggle_shuffle());
    assert!(!s.shuffle_mode);
}

#[test]
fn set_volume_and_mute_make_commands() {
    let mut s = state();
    assert!(matches!(s.set_volume(4_000), AudioCommand::SetVolume(1000)));
    assert_eq!(s.volume.volume.permille(), 1000);
    assert!(matches!(s.set_volume(-5), AudioCommand::SetVolume(0)));
    assert!(matches!(s.set_volume(330), AudioCommand::SetVolume(330)));
    assert!(matches!(s.toggle_mute(), AudioCommand::SetVolume(0)));
    assert!(s.volume.muted);
    assert!(matches!(s.toggle_mute(), AudioCommand::SetVolume(330)));
    assert!(!s.volume.muted);
}

#[test]
fn shown_duration_prefers_the_published_one() {
    let s = playing(1, 0);
    assert_eq!(s.get_duration(Some(123)), 123);
    assert_eq!(s.get_duration(None), 200_000);
}

#[test]
fn current_track_liked() {
    let liked: HashSet<u64> = HashSet::from([1, 2]);
    assert!(!state().is_current_track_liked(&liked));
    assert!(playing(1, 0).is_current_track_liked(&liked));
    assert!(!playing(3, 0).is_current_track_liked(&liked));
}

#[test]
fn seek_keys() {
    assert_eq!(seek_forward_target(0, 180_000), Some(10_000));
    assert_eq!(seek_forward_target(169_999, 180_000), Some(179_999));
    assert_eq!(seek_forward_target(170_000, 180_000), None);
    assert_eq!(seek_forward_target(u64::MAX, u64::MAX), None);
    assert_eq!(seek_backward_target(25_000), 15_000);
    assert_eq!(seek_backward_target(10_000), 0);
    assert_eq!(seek_backward_target(9_999), 0);
    assert_eq!(seek_backward_target(0), 0);
}

fn queue(index: Option<usize>, len: usize) -> QueuePosition {
    QueuePosition { current_index: index, len, first_track_id: if len > 0 { Some(100) } else { None } }
}

#[test]
fn track_end_is_not_due() {
    let mut s = playing(1, 0);
    assert_eq!(s.check_track_finished(false, 5_000, queue(Some(0), 3), false), FinishedStep::Nothing);
    assert_eq!(s.check_track_finished(true, 999, queue(Some(0), 3), false), FinishedStep::Nothing);
    assert!(!s.track_finished_handled);
    s.is_playing = false;
    assert_eq!(s.check_track_finished(true, 5_000, queue(Some(0), 3), false), FinishedStep::Nothing);
    let mut s = state();
    s.is_playing = true;
    assert_eq!(s.check_track_finished(true, 5_000, queue(Some(0), 3), false), FinishedStep::Nothing);
}

#[test]
fn track_end_is_dealt_with_once() {
    let mut s = playing(1, 0);
    assert_eq!(s.check_track_finished(true, 1_000, queue(Some(0), 3), false), FinishedStep::PlayNext);
    assert!(s.track_finished_handled);
    assert_eq!(s.check_track_finished(true, 1_050, queue(Some(0), 3), false), FinishedStep::Nothing);
}

#[test]
fn track_end_with_repeat_one() {
    let mut s = playing(1, 0);
    s.repeat_mode = RepeatMode::One;
    assert_eq!(s.check_track_finished(true, 5_000, queue(Some(2), 3), false), FinishedStep::Replay(1));
}

#[test]
fn track_end_with_repeat_all() {
    let mut s = playing(1, 0);
    s.repeat_mode = RepeatMode::All;
    assert_eq!(s.check_track_finished(true, 5_000, queue(Some(1), 3), false), FinishedStep::PlayNext);
    let mut s = playing(1, 0);
    s.repeat_mode = RepeatMode::All;
    assert_eq!(
        s.check_track_finished(true, 5_000, queue(Some(2), 3), false),
        FinishedStep::LoopToFirst(100)
    );
    let mut s = playing(1, 0);
    s.repeat_mode = RepeatMode::All;
    assert_eq!(
        s.check_track_finished(true, 5_000, queue(None, 3), false),
        FinishedStep::LoopToFirst(100)
    );
    let mut s = playing(1, 0);
    s.repeat_mode = RepeatMode::All;
    assert_eq!(s.check_track_finished(true, 5_000, queue(None, 0), false), FinishedStep::Nothing);
    assert!(s.is_playing);
}

#[test]
fn track_end_without_repeat() {
    let mut s = playing(1, 0);
    assert_eq!(s.check_track_finished(true, 5_000, queue(Some(2), 3), false), FinishedStep::Stop);
    assert!(!s.is_playing);
    assert_eq!(s.track_start_ms, None);
    assert_eq!(s.playback_session.current(), 1);
    let mut s = playing(1, 0);
    assert_eq!(
        s.check_track_finished(true, 5_000, queue(Some(0), 1), false),
        FinishedStep::PickFromHistory(1)
    );
    assert!(s.is_playing);
    let mut s = playing(1, 0);
    assert_eq!(
        s.check_track_finished(true, 5_000, queue(Some(0), 1), true),
        FinishedStep::WaitForFetch
    );
    let mut s = playing(1, 0);
    assert_eq!(s.check_track_finished(true, 5_000, queue(None, 0), false), FinishedStep::Stop);
    let mut s = playing(1, 0);
    assert_eq!(s.check_track_finished(true, 5_000, queue(Some(usize::MAX), 2), false), FinishedStep::Stop);
}

#[test]
fn stop_at_end_keeps_the_session() {
    let mut s = playing(1, 0);
    assert!(matches!(s.stop_at_end(), AudioCommand::Stop));
    assert!(!s.is_playing);
    assert_eq!(s.track_start_ms, None);
    assert_eq!(s.playback_session.current(), 1);
    assert_eq!(s.current_track_id, Some(1));
}

#[test]
fn history_candidates_leave_out_the_current_track() {
    assert_eq!(history_candidates(&vec![1, 2, 1, 3], 1), vec![2, 3]);
    assert_eq!(history_candidates(&vec![1, 1], 1), Vec::<u64>::new());
    assert_eq!(history_candidates(&vec![], 1), Vec::<u64>::new());
    assert_eq!(history_candidates(&vec![4, 5], 1), vec![4, 5]);
}

#[test]
fn next_after_single_track_cases() {
    assert_eq!(next_after_single_track(&vec![7, 8, 9], 0, true), SingleTrackNext::FromHistory(7));
    assert_eq!(next_after_single_track(&vec![7, 8, 9], 2, false), SingleTrackNext::FromHistory(9));
    assert_eq!(next_after_single_track(&vec![], 0, true), SingleTrackNext::FirstSuggestion);
    assert_eq!(next_after_single_track(&vec![], 5, false), SingleTrackNext::Stop);
}

#[test]
fn random_choice_comes_from_the_history_and_is_not_the_current_track() {
    let recent = vec![1u64, 2, 3, 4, 5, 3];
    let mut seen: HashSet<u64> = HashSet::new();
    for _ in 0..400 {
        match choose_after_single_track(&recent, 3, true) {
            SingleTrackNext::FromHistory(id) => {
                assert!(id != 3);
                assert!(recent.contains(&id));
                seen.insert(id);
            }
            other => panic!("unexpected choice {:?}", other),
        }
    }
    assert!(seen.len() > 1);
    assert_eq!(choose_after_single_track(&vec![3, 3], 3, true), SingleTrackNext::FirstSuggestion);
    assert_eq!(choose_after_single_track(&vec![3], 3, false), SingleTrackNext::Stop);
    assert_eq!(choose_after_single_track(&vec![], 3, false), SingleTrackNext::Stop);
    assert_eq!(choose_after_single_track(&vec![8], 3, false), SingleTrackNext::FromHistory(8));
}

#[test]
fn shader_reload_looks_twice_a_second_at_most() {
    let mut r = ShaderReload::new(1_000);
    assert!(!r.check_due(1_000));
    assert!(!r.check_due(1_499));
    assert_eq!(r.last_check_ms, 1_000);
    assert!(r.check_due(1_500));
    assert_eq!(r.last_check_ms, 1_500);
    assert!(!r.check_due(1_999));
    assert!(!r.check_due(900));
    assert!(r.check_due(2_000));
}

#[test]
fn shader_reload_checksum_is_sha256_in_hex() {
    let r = ShaderReload::new(0);
    assert_eq!(
        r.changed_checksum("").as_deref(),
        Some("e3b0c44298fc1c149afbf4c8996fb92427ae41e4649b934ca495991b7852b855")
    );
    assert_eq!(
        r.changed_checksum("abc").as_deref(),
        Some("ba7816bf8f01cfea414140de5dae2223b00361a396177a9cb410ff61f20015ad")
    );
}

#[test]
fn shader_reload_only_when_the_description_changed() {
    let mut r = ShaderReload::new(0);
    let first = r.changed_checksum("{\"passes\": 1}").expect("nothing is loaded yet");
    r.loaded(first.clone());
    assert_eq!(r.shader_checksum.as_deref(), Some(first.as_str()));
    assert_eq!(r.changed_checksum("{\"passes\": 1}"), None);
    let second = r.changed_checksum("{\"passes\": 2}").expect("the description changed");
    assert_ne!(first, second);
    assert_eq!(r.shader_checksum.as_deref(), Some(first.as_str()));
    r.loaded(second);
    assert_eq!(r.changed_checksum("{\"passes\": 2}"), None);
    assert!(r.changed_checksum("{\"passes\": 1}").is_some());
}
