use temprs::prefetch::{is_in_prefetch_window, NextTrack, PrefetchResult, PrefetchState};
use temprs::redirect::{
    accepts_status, authorization_header, prefetch_stream_url, range_header, resolve_redirect,
    RedirectOutcome, ResolveError, ResolveStep,
};
use temprs::session::{PlaybackSession, SessionTagged, TransportChange};
use temprs::text::decimal_string;

fn next(id: u64, url: Option<&str>) -> Option<NextTrack> {
    Some(NextTrack { id, stream_url: url.map(String::from) })
}

fn token() -> Option<String> {
    Some(String::from("token-1"))
}

#[test]
fn window_is_seventy_to_eighty_percent() {
    assert!(!is_in_prefetch_window(125_999, 180_000));
    assert!(is_in_prefetch_window(126_000, 180_000));
    assert!(is_in_prefetch_window(135_000, 180_000));
    assert!(is_in_prefetch_window(144_000, 180_000));
    assert!(!is_in_prefetch_window(144_001, 180_000));
    assert!(!is_in_prefetch_window(0, 180_000));
    assert!(!is_in_prefetch_window(180_000, 180_000));
}

#[test]
fn window_needs_a_track_of_a_second() {
    assert!(!is_in_prefetch_window(0, 0));
    assert!(!is_in_prefetch_window(750, 999));
    assert!(is_in_prefetch_window(750, 1_000));
}

#[test]
fn window_of_the_longest_track() {
    assert!(is_in_prefetch_window(u64::MAX / 4 * 3, u64::MAX));
    assert!(!is_in_prefetch_window(u64::MAX, u64::MAX));
}

#[test]
fn prefetch_begins_inside_the_window() {
    let session = PlaybackSession::from_value(9);
    let mut state = PrefetchState::new();
    let request = state
        .check_prefetch_trigger(true, 130_000, 180_000, next(2, Some("https://api/2")), token(), &session)
        .expect("a prefetch begins");
    assert_eq!(request.session, 9);
    assert_eq!(request.track_id, 2);
    assert_eq!(request.stream_url, "https://api/2");
    assert_eq!(request.token, "token-1");
    assert!(state.triggered);
}

#[test]
fn prefetch_begins_once_per_track() {
    let session = PlaybackSession::new();
    let mut state = PrefetchState::new();
    assert!(state
        .check_prefetch_trigger(true, 130_000, 180_000, next(2, Some("u")), token(), &session)
        .is_some());
    assert!(state
        .check_prefetch_trigger(true, 131_000, 180_000, next(2, Some("u")), token(), &session)
        .is_none());
    state.reset_trigger();
    assert!(state
        .check_prefetch_trigger(true, 131_000, 180_000, next(2, Some("u")), token(), &session)
        .is_some());
}

#[test]
fn prefetch_does_not_begin_outside_the_window_or_while_not_playing() {
    let session = PlaybackSession::new();
    let mut state = PrefetchState::new();
    assert!(state
        .check_prefetch_trigger(true, 100_000, 180_000, next(2, Some("u")), token(), &session)
        .is_none());
    assert!(state
        .check_prefetch_trigger(true, 150_000, 180_000, next(2, Some("u")), token(), &session)
        .is_none());
    assert!(state
        .check_prefetch_trigger(false, 130_000, 180_000, next(2, Some("u")), token(), &session)
        .is_none());
    assert!(state.check_prefetch_trigger(true, 130_000, 180_000, None, token(), &session).is_none());
    assert!(!state.triggered);
}

#[test]
fn prefetch_needs_a_stream_address_and_a_token() {
    let session = PlaybackSession::new();
    let mut state = PrefetchState::new();
    assert!(state
        .check_prefetch_trigger(true, 130_000, 180_000, next(2, None), token(), &session)
        .is_none());
    assert!(state.triggered);
    let mut state = PrefetchState::new();
    assert!(state
        .check_prefetch_trigger(true, 130_000, 180_000, next(2, Some("u")), None, &session)
        .is_none());
    assert!(state.triggered);
}

#[test]
fn prefetch_is_skipped_when_the_address_is_at_hand() {
    let session = PlaybackSession::new();
    let mut state = PrefetchState::new();
    let result = session.tag(PrefetchResult { track_id: 2, cdn_url: String::from("https://cdn/2") });
    assert!(state.check_prefetch_updates(&session, result, 500));
    assert!(state.has_valid_prefetch(2));
    assert!(!state.has_valid_prefetch(3));
    assert_eq!(state.fetched_at_ms, Some(500));
    assert!(state
        .check_prefetch_trigger(true, 130_000, 180_000, next(2, Some("u")), token(), &session)
        .is_none());
    assert!(!state.triggered);
    assert!(state
        .check_prefetch_trigger(true, 130_000, 180_000, next(3, Some("u")), token(), &session)
        .is_some());
}

#[test]
fn prefetched_address_goes_to_the_play_of_its_track_only() {
    let session = PlaybackSession::new();
    let mut state = PrefetchState::new();
    assert_eq!(state.prefetched_for(2), None);
    let result = session.tag(PrefetchResult { track_id: 2, cdn_url: String::from("https://cdn/2") });
    state.check_prefetch_updates(&session, result, 0);
    assert_eq!(state.prefetched_for(2), Some(String::from("https://cdn/2")));
    assert_eq!(state.prefetched_for(7), None);
}

#[test]
fn stale_prefetch_is_dropped() {
    for change in [TransportChange::Play, TransportChange::Stop, TransportChange::Seek] {
        let mut session = PlaybackSession::from_value(3);
        let mut state = PrefetchState::new();
        let result =
            session.tag(PrefetchResult { track_id: 2, cdn_url: String::from("https://cdn/2") });
        session.advance(change);
        assert!(!state.check_prefetch_updates(&session, result, 10));
        assert_eq!(state.cdn_url, None);
        assert_eq!(state.for_track_id, None);
        assert_eq!(state.fetched_at_ms, None);
        assert!(!state.has_valid_prefetch(2));
    }
}

#[test]
fn prefetch_result_with_a_foreign_tag_is_dropped() {
    let session = PlaybackSession::from_value(3);
    let mut state = PrefetchState::new();
    let result = SessionTagged {
        session: 2,
        value: PrefetchResult { track_id: 2, cdn_url: String::from("x") },
    };
    assert!(!state.check_prefetch_updates(&session, result, 10));
    assert!(!state.has_valid_prefetch(2));
}

#[test]
fn redirect_resolves_with_a_location() {
    match resolve_redirect(1, RedirectOutcome::Location(String::from("https://cdn/a.mp3"))) {
        ResolveStep::Resolved(url) => assert_eq!(url, "https://cdn/a.mp3"),
        other => panic!("unexpected step {:?}", other),
    }
    match resolve_redirect(2, RedirectOutcome::Location(String::from("https://cdn/b.mp3"))) {
        ResolveStep::Resolved(url) => assert_eq!(url, "https://cdn/b.mp3"),
        other => panic!("unexpected step {:?}", other),
    }
}

#[test]
fn scenario_no_location_header_on_both_attempts() {
    let mut attempt = 1u32;
    let mut attempts_made = 0u32;
    let mut waits: Vec<u64> = Vec::new();
    let error = loop {
        attempts_made += 1;
        match resolve_redirect(attempt, RedirectOutcome::NoLocation) {
            ResolveStep::Resolved(url) => panic!("resolved to {}", url),
            ResolveStep::RetryAfter { wait_ms, next_attempt } => {
                waits.push(wait_ms);
                attempt = next_attempt;
            }
            ResolveStep::Failed(error) => break error,
        }
    };
    assert_eq!(attempts_made, 2);
    assert_eq!(waits, vec![500]);
    assert_eq!(error, ResolveError::RedirectFailed);
    assert!(error.message().contains("no Location header"));
    assert_eq!(error.message(), "Redirect failed: no Location header after 2 attempts");
}

#[test]
fn redirect_retries_after_a_transport_error() {
    match resolve_redirect(1, RedirectOutcome::TransportError) {
        ResolveStep::RetryAfter { wait_ms, next_attempt } => {
            assert_eq!(wait_ms, 500);
            assert_eq!(next_attempt, 2);
        }
        other => panic!("unexpected step {:?}", other),
    }
    match resolve_redirect(2, RedirectOutcome::TransportError) {
        ResolveStep::Failed(error) => assert_eq!(error, ResolveError::RedirectFailed),
        other => panic!("unexpected step {:?}", other),
    }
}

#[test]
fn prefetch_resolution_fails_with_its_own_error() {
    match prefetch_stream_url(1, RedirectOutcome::NoLocation) {
        ResolveStep::RetryAfter { wait_ms, next_attempt } => {
            assert_eq!(wait_ms, 500);
            assert_eq!(next_attempt, 2);
        }
        other => panic!("unexpected step {:?}", other),
    }
    match prefetch_stream_url(2, RedirectOutcome::NoLocation) {
        ResolveStep::Failed(error) => {
            assert_eq!(error, ResolveError::PrefetchFailed);
            assert_eq!(error.message(), "No Location header in redirect");
        }
        other => panic!("unexpected step {:?}", other),
    }
    match prefetch_stream_url(1, RedirectOutcome::Location(String::from("https://cdn/n.mp3"))) {
        ResolveStep::Resolved(url) => assert_eq!(url, "https://cdn/n.mp3"),
        other => panic!("unexpected step {:?}", other),
    }
}

#[test]
fn status_codes_of_success() {
    assert!(accepts_status(200));
    assert!(accepts_status(206));
    assert!(accepts_status(299));
    assert!(!accepts_status(199));
    assert!(!accepts_status(300));
    assert!(!accepts_status(302));
    assert!(!accepts_status(404));
    assert!(!accepts_status(0));
    assert!(!accepts_status(u16::MAX));
}

#[test]
fn header_values() {
    assert_eq!(authorization_header("abc123"), "OAuth abc123");
    assert_eq!(authorization_header(""), "OAuth ");
    assert_eq!(range_header(0), "bytes=0-");
    assert_eq!(range_header(1_440_000), "bytes=1440000-");
    assert_eq!(range_header(u64::MAX), "bytes=18446744073709551615-");
}

#[test]
fn decimal_text() {
    assert_eq!(decimal_string(0), "0");
    assert_eq!(decimal_string(7), "7");
    assert_eq!(decimal_string(10), "10");
    assert_eq!(decimal_string(909), "909");
    assert_eq!(decimal_string(1_234_567_890), "1234567890");
    assert_eq!(decimal_string(u64::MAX), u64::MAX.to_string());
}
