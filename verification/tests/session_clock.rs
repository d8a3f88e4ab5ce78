use temprs::clock::PlaybackClock;
use temprs::session::{PlaybackSession, SessionTagged, TransportChange};
use temprs::volume::{Volume, VolumeControl};

#[test]
fn session_starts_at_zero_and_counts_up() {
    let mut s = PlaybackSession::new();
    assert_eq!(s.current(), 0);
    assert_eq!(s.advance(TransportChange::Play), 1);
    assert_eq!(s.advance(TransportChange::Seek), 2);
    assert_eq!(s.advance(TransportChange::Stop), 3);
    assert_eq!(s.current(), 3);
}

#[test]
fn session_wraps_on_overflow() {
    let mut s = PlaybackSession::from_value(u64::MAX);
    assert_eq!(s.advance(TransportChange::Play), 0);
    assert_eq!(s.current(), 0);
}

#[test]
fn result_of_live_session_is_delivered() {
    let s = PlaybackSession::from_value(7);
    let tagged = s.tag(String::from("https://cdn.example/a.mp3"));
    assert_eq!(tagged.session, 7);
    assert_eq!(s.accept(tagged), Some(String::from("https://cdn.example/a.mp3")));
}

#[test]
fn stale_result_is_discarded_after_any_transport_change() {
    for change in [TransportChange::Play, TransportChange::Stop, TransportChange::Seek] {
        let mut s = PlaybackSession::from_value(41);
        let tagged = s.tag(5u32);
        s.advance(change);
        assert!(!s.is_current(tagged.session));
        assert_eq!(s.accept(tagged), None);
    }
}

#[test]
fn stale_result_is_discarded_after_interleaved_changes() {
    let mut s = PlaybackSession::new();
    let tagged = s.tag("next");
    s.advance(TransportChange::Seek);
    s.advance(TransportChange::Play);
    s.advance(TransportChange::Stop);
    s.advance(TransportChange::Play);
    assert_eq!(s.accept(tagged), None);
    let foreign = SessionTagged { session: 3, value: "older" };
    assert_eq!(s.accept(foreign), None);
    let current = SessionTagged { session: 4, value: "current" };
    assert_eq!(s.accept(current), Some("current"));
}

#[test]
fn position_after_two_seconds_of_play() {
    let clock = PlaybackClock::start(0, 10_000);
    assert_eq!(clock.position(12_000, Some(180_000), false), 2_000);
    assert_eq!(clock.position(12_000, Some(180_000), true), 2_000);
    assert_eq!(clock.position(12_000, None, true), 2_000);
}

#[test]
fn position_before_the_clock_started_is_the_start_position() {
    let clock = PlaybackClock::start(5_000, 10_000);
    assert_eq!(clock.position(9_000, Some(180_000), false), 5_000);
}

#[test]
fn position_is_limited_to_the_total_once_the_output_is_empty() {
    let clock = PlaybackClock::start(0, 0);
    assert_eq!(clock.position(181_500, Some(180_000), true), 180_000);
    assert_eq!(clock.position(179_000, Some(180_000), true), 179_000);
    assert_eq!(clock.position(100_000, Some(180_000), true), 100_000);
    assert_eq!(clock.position(181_500, Some(180_000), false), 181_500);
    assert_eq!(clock.position(181_500, None, true), 181_500);
}

#[test]
fn position_saturates_at_the_largest_time() {
    let clock = PlaybackClock::start(u64::MAX - 10, 0);
    assert_eq!(clock.position(100, None, false), u64::MAX);
}

#[test]
fn pause_freezes_the_position() {
    let mut clock = PlaybackClock::start(0, 1_000);
    assert!(clock.pause(4_000, Some(180_000), false));
    assert_eq!(clock.paused_at_ms, Some(3_000));
    assert_eq!(clock.position(4_000, Some(180_000), false), 3_000);
    assert_eq!(clock.position(90_000, Some(180_000), false), 3_000);
    assert!(!clock.pause(95_000, Some(180_000), false));
    assert_eq!(clock.paused_at_ms, Some(3_000));
}

#[test]
fn resume_continues_from_the_paused_position() {
    let mut clock = PlaybackClock::start(0, 1_000);
    clock.pause(4_000, Some(180_000), false);
    assert!(clock.resume(64_000));
    assert_eq!(clock.paused_at_ms, None);
    assert_eq!(clock.start_position_ms, 3_000);
    assert_eq!(clock.start_wall_ms, 64_000);
    assert_eq!(clock.position(64_000, Some(180_000), false), 3_000);
    assert_eq!(clock.position(65_500, Some(180_000), false), 4_500);
    assert!(!clock.resume(70_000));
    assert_eq!(clock.start_wall_ms, 64_000);
}

#[test]
fn resume_position_does_not_depend_on_the_delay() {
    for delay in [0u64, 1, 50, 10_000, 86_400_000] {
        let mut clock = PlaybackClock::start(20_000, 500);
        let at_pause = clock.position(7_500, Some(300_000), false);
        clock.pause(7_500, Some(300_000), false);
        clock.resume(7_500 + delay);
        assert_eq!(clock.position(7_500 + delay, Some(300_000), false), at_pause);
        assert_eq!(at_pause, 27_000);
    }
}

#[test]
fn volume_is_clamped_whatever_the_input() {
    assert_eq!(Volume::clamped(0).permille(), 0);
    assert_eq!(Volume::clamped(1000).permille(), 1000);
    assert_eq!(Volume::clamped(350).permille(), 350);
    assert_eq!(Volume::clamped(1001).permille(), 1000);
    assert_eq!(Volume::clamped(-1).permille(), 0);
    assert_eq!(Volume::clamped(i64::MAX).permille(), 1000);
    assert_eq!(Volume::clamped(i64::MIN).permille(), 0);
    assert_eq!(Volume::full().permille(), 1000);
    assert_eq!(Volume::silent().permille(), 0);
}

#[test]
fn volume_steps_stay_in_range() {
    assert_eq!(Volume::clamped(950).step_up().permille(), 1000);
    assert_eq!(Volume::clamped(900).step_up().permille(), 1000);
    assert_eq!(Volume::clamped(500).step_up().permille(), 600);
    assert_eq!(Volume::clamped(50).step_down().permille(), 0);
    assert_eq!(Volume::clamped(100).step_down().permille(), 0);
    assert_eq!(Volume::clamped(500).step_down().permille(), 400);
}

#[test]
fn volume_control_restores_saved_setting() {
    let c = VolumeControl::restored(Volume::clamped(400), false);
    assert_eq!(c.volume.permille(), 400);
    assert!(!c.muted);
    assert_eq!(c.volume_before_mute.permille(), 700);
    let m = VolumeControl::restored(Volume::clamped(0), true);
    assert!(m.muted);
    assert_eq!(m.volume_before_mute.permille(), 0);
}

#[test]
fn volume_control_set_volume_clamps() {
    let mut c = VolumeControl::restored(Volume::clamped(400), false);
    assert_eq!(c.set_volume(2_500).permille(), 1000);
    assert_eq!(c.volume.permille(), 1000);
    assert_eq!(c.set_volume(-40).permille(), 0);
    assert_eq!(c.volume.permille(), 0);
    assert_eq!(c.set_volume(250).permille(), 250);
    assert_eq!(c.volume_before_mute.permille(), 700);
}

#[test]
fn volume_control_mute_and_unmute() {
    let mut c = VolumeControl::restored(Volume::clamped(400), false);
    assert_eq!(c.toggle_mute().permille(), 0);
    assert!(c.muted);
    assert_eq!(c.volume_before_mute.permille(), 400);
    assert_eq!(c.toggle_mute().permille(), 400);
    assert!(!c.muted);
    assert_eq!(c.volume.permille(), 400);
}

#[test]
fn volume_control_keys() {
    let mut c = VolumeControl::restored(Volume::clamped(950), false);
    c.toggle_mute();
    assert_eq!(c.volume_up().permille(), 100);
    assert!(!c.muted);
    assert_eq!(c.volume_down().permille(), 0);
    assert_eq!(c.volume_down().permille(), 0);
}
