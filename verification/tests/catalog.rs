use std::collections::HashSet;
use temprs::content::{
    ContentState, LikesSortOrder, PlaylistsSortOrder, SearchResults, SearchType,
    SuggestionsSortOrder,
};
use temprs::home::HomeContent;
use temprs::models::{Playlist, Track, User};
use temprs::navigation::{AppScreen, MainTab};
use temprs::social::{capitalize, toggle_like, LikeTarget};
use temprs::track_filter::{
    filter_playable_tracks, is_blocking_policy, is_restricted_access, is_streamable_here,
    is_track_playable,
};

fn track(id: u64) -> Track {
    Track {
        id,
        title: format!("Track {}", id),
        duration: 180_000,
        full_duration: Some(180_000),
        stream_url: Some(format!("https://api.example/tracks/{}/stream", id)),
        permalink_url: Some(format!("https://example/tracks/{}", id)),
        artwork_url: None,
        user: User { id: 1, username: String::from("artist"), avatar_url: None },
        genre: None,
        playback_count: None,
        streamable: Some(true),
        access: None,
        policy: None,
    }
}

#[test]
fn home_content_starts_empty() {
    let home = HomeContent::new();
    assert!(home.recently_played.is_empty());
    assert!(home.recommendations.is_empty());
    assert!(!home.has_content());
    let home = HomeContent::default();
    assert!(home.recently_played.is_empty());
    assert!(!home.initial_fetch_done);
}

#[test]
fn home_content_has_content_after_the_first_fetch_even_if_empty() {
    let mut home = HomeContent::new();
    home.initial_fetch_done = true;
    assert!(home.has_content());
}

#[test]
fn home_content_clear_keeps_the_fetch_flag() {
    let mut home = HomeContent::new();
    home.recently_played.push(track(1));
    home.recommendations.push(track(2));
    home.initial_fetch_done = true;
    home.clear();
    assert!(home.recently_played.is_empty());
    assert!(home.recommendations.is_empty());
    assert!(home.has_content());
}

#[test]
fn like_target_id_and_kind() {
    assert_eq!(LikeTarget::Track(5).id(), 5);
    assert_eq!(LikeTarget::Playlist(6).id(), 6);
    assert_eq!(LikeTarget::Track(5).kind(), "track");
    assert_eq!(LikeTarget::Playlist(6).kind(), "playlist");
}

#[test]
fn capitalize_first_letter() {
    assert_eq!(capitalize(""), "");
    assert_eq!(capitalize("track"), "Track");
    assert_eq!(capitalize("playlist"), "Playlist");
    assert_eq!(capitalize("a"), "A");
    assert_eq!(capitalize("Already"), "Already");
    assert_eq!(capitalize("1up"), "1up");
    assert_eq!(capitalize("ßig"), "SSig");
    assert_eq!(capitalize("éa"), "Éa");
}

#[test]
fn toggle_like_adds_an_id() {
    let mut liked: HashSet<u64> = HashSet::new();
    liked.insert(1);
    let result = toggle_like(LikeTarget::Track(7), &mut liked);
    assert!(result.is_liked);
    assert_eq!(result.success_message, "Added to Liked Tracks");
    assert_eq!(result.error_message, "Not authenticated");
    assert_eq!(liked, HashSet::from([1, 7]));
}

#[test]
fn toggle_like_removes_an_id() {
    let mut liked: HashSet<u64> = HashSet::from([1, 7]);
    let result = toggle_like(LikeTarget::Playlist(7), &mut liked);
    assert!(!result.is_liked);
    assert_eq!(result.success_message, "Removed from Liked Playlists");
    assert_eq!(result.error_message, "Not authenticated");
    assert_eq!(liked, HashSet::from([1]));
}

#[test]
fn toggle_like_twice_restores_the_set() {
    let mut liked: HashSet<u64> = HashSet::from([3, 4]);
    toggle_like(LikeTarget::Track(9), &mut liked);
    toggle_like(LikeTarget::Track(9), &mut liked);
    assert_eq!(liked, HashSet::from([3, 4]));
    toggle_like(LikeTarget::Track(3), &mut liked);
    toggle_like(LikeTarget::Track(3), &mut liked);
    assert_eq!(liked, HashSet::from([3, 4]));
}

#[test]
fn content_state_defaults() {
    let c = ContentState::default();
    assert_eq!(c.search_type, SearchType::Tracks);
    assert_eq!(c.search_page, 0);
    assert_eq!(c.search_page_size, 50);
    assert_eq!(c.suggestions_page_size, 50);
    assert_eq!(c.likes_page_size, 50);
    assert_eq!(c.playlists_page_size, 50);
    assert_eq!(c.history_page_size, 50);
    assert_eq!(c.history_total_tracks, 0);
    assert_eq!(c.likes_sort_order, LikesSortOrder::RecentFirst);
    assert_eq!(c.playlists_sort_order, PlaylistsSortOrder::RecentFirst);
    assert_eq!(c.suggestions_sort_order, SuggestionsSortOrder::Default);
    assert!(c.search_query.is_empty());
    assert!(c.liked_track_ids.is_empty());
    assert!(c.liked_playlist_ids.is_empty());
    assert!(c.selected_playlist_id.is_none());
    assert!(!c.search_has_more);
    assert!(!c.home_content.has_content());
}

#[test]
fn content_state_likes() {
    let mut c = ContentState::default();
    assert!(!c.is_track_liked(4));
    assert!(!c.is_playlist_liked(4));
    c.liked_track_ids.insert(4);
    c.liked_playlist_ids.insert(8);
    assert!(c.is_track_liked(4));
    assert!(!c.is_track_liked(8));
    assert!(c.is_playlist_liked(8));
    assert!(!c.is_playlist_liked(4));
}

#[test]
fn content_state_clear_search() {
    let mut c = ContentState::default();
    let results = SearchResults {
        tracks: vec![track(1), track(2)],
        playlists: vec![Playlist { artwork_url: None, id: 3,
            title: String::from("mix"),
            track_count: 2,
            tracks: vec![track(1)],
        }],
        next_href: Some(String::from("https://api.example/next")),
    };
    c.search_results_tracks = results.tracks;
    c.search_results_playlists = results.playlists;
    c.search_next_href = results.next_href;
    c.search_has_more = true;
    c.search_page = 3;
    c.search_query = String::from("ambient");
    c.liked_track_ids.insert(5);
    c.likes_page = 2;
    c.clear_search();
    assert!(c.search_results_tracks.is_empty());
    assert!(c.search_results_playlists.is_empty());
    assert_eq!(c.search_next_href, None);
    assert!(!c.search_has_more);
    assert_eq!(c.search_page, 0);
    assert_eq!(c.search_query, "ambient");
    assert!(c.is_track_liked(5));
    assert_eq!(c.likes_page, 2);
}

#[test]
fn content_state_reset_all_content() {
    let mut c = ContentState::default();
    c.search_results_tracks.push(track(1));
    c.search_page = 2;
    c.likes_tracks.push(track(2));
    c.user_tracks.push(track(3));
    c.liked_track_ids.insert(2);
    c.playlists.push(Playlist { artwork_url: None, id: 3, title: String::new(), track_count: 0, tracks: Vec::new() });
    c.liked_playlist_ids.insert(3);
    c.user_created_playlist_ids.insert(3);
    c.suggestions_tracks.push(track(4));
    c.home_content.recently_played.push(track(5));
    c.home_content.initial_fetch_done = true;
    c.likes_initial_fetch_done = true;
    c.playlists_initial_fetch_done = true;
    c.suggestions_initial_fetch_done = true;
    c.likes_sort_order = LikesSortOrder::ArtistAZ;
    c.search_query = String::from("dub");
    c.reset_all_content();
    assert!(c.search_results_tracks.is_empty());
    assert_eq!(c.search_page, 0);
    assert!(c.likes_tracks.is_empty());
    assert!(c.user_tracks.is_empty());
    assert!(c.liked_track_ids.is_empty());
    assert!(c.playlists.is_empty());
    assert!(c.liked_playlist_ids.is_empty());
    assert!(c.user_created_playlist_ids.is_empty());
    assert!(c.suggestions_tracks.is_empty());
    assert!(c.home_content.recently_played.is_empty());
    assert!(!c.home_content.has_content());
    assert!(!c.likes_initial_fetch_done);
    assert!(!c.playlists_initial_fetch_done);
    assert!(!c.suggestions_initial_fetch_done);
    assert_eq!(c.likes_sort_order, LikesSortOrder::ArtistAZ);
    assert_eq!(c.search_query, "dub");
}

#[test]
fn navigation_values() {
    assert_ne!(AppScreen::Splash, AppScreen::Main);
    let tabs = [
        MainTab::Home,
        MainTab::NowPlaying,
        MainTab::Search,
        MainTab::History,
        MainTab::Suggestions,
        MainTab::Likes,
        MainTab::Playlists,
    ];
    for (i, a) in tabs.iter().enumerate() {
        for (j, b) in tabs.iter().enumerate() {
            assert_eq!(a == b, i == j);
        }
    }
}

#[test]
fn track_durations_and_history_mark() {
    let mut t = track(1);
    assert_eq!(t.playback_duration_ms(), 180_000);
    t.full_duration = Some(600_000);
    assert_eq!(t.playback_duration_ms(), 600_000);
    assert!(!t.is_history_track());
    t.full_duration = None;
    assert_eq!(t.playback_duration_ms(), 180_000);
    assert!(!t.is_history_track());
    t.permalink_url = None;
    assert!(t.is_history_track());
    assert!(!t.needs_stream_url_fetch());
    t.stream_url = None;
    assert!(t.needs_stream_url_fetch());
    t.streamable = None;
    assert!(!t.needs_stream_url_fetch());
    t.streamable = Some(false);
    assert!(!t.needs_stream_url_fetch());
}

#[test]
fn policy_and_access_are_read_in_any_case() {
    assert!(is_blocking_policy("BLOCK"));
    assert!(is_blocking_policy("block"));
    assert!(is_blocking_policy("Block"));
    assert!(!is_blocking_policy("ALLOW"));
    assert!(!is_blocking_policy("MONETIZE"));
    assert!(!is_blocking_policy("SNIP"));
    assert!(!is_blocking_policy(""));
    assert!(is_restricted_access("blocked"));
    assert!(is_restricted_access("BLOCKED"));
    assert!(is_restricted_access("preview"));
    assert!(is_restricted_access("Preview"));
    assert!(!is_restricted_access("playable"));
    assert!(!is_restricted_access(""));
}

#[test]
fn track_filter_rules() {
    let mut t = track(1);
    assert!(is_streamable_here(&t));
    assert!(is_track_playable(&t));
    t.stream_url = None;
    assert!(is_streamable_here(&t));
    assert!(!is_track_playable(&t));
    let mut t = track(2);
    t.streamable = None;
    assert!(!is_streamable_here(&t));
    t.streamable = Some(false);
    assert!(!is_streamable_here(&t));
    let mut t = track(3);
    t.policy = Some(String::from("Block"));
    assert!(!is_streamable_here(&t));
    assert!(!is_track_playable(&t));
    t.policy = Some(String::from("ALLOW"));
    assert!(is_streamable_here(&t));
    t.access = Some(String::from("Preview"));
    assert!(!is_streamable_here(&t));
    t.access = Some(String::from("blocked"));
    assert!(!is_streamable_here(&t));
    t.access = Some(String::from("playable"));
    assert!(is_streamable_here(&t));
}

#[test]
fn filter_keeps_playable_tracks_in_order() {
    let mut blocked = track(2);
    blocked.policy = Some(String::from("BLOCK"));
    let mut preview = track(4);
    preview.access = Some(String::from("preview"));
    let mut unstreamable = track(5);
    unstreamable.streamable = Some(false);
    let kept = filter_playable_tracks(vec![track(1), blocked, track(3), preview, unstreamable, track(6)]);
    assert_eq!(kept.iter().map(|t| t.id).collect::<Vec<_>>(), vec![1, 3, 6]);
    assert!(filter_playable_tracks(Vec::new()).is_empty());
}

#[test]
fn content_state_in_grid_pages() {
    let c = ContentState::with_page_size(12);
    assert_eq!(c.search_page_size, 12);
    assert_eq!(c.suggestions_page_size, 12);
    assert_eq!(c.likes_page_size, 12);
    assert_eq!(c.playlists_page_size, 12);
    assert_eq!(c.history_page_size, 12);
    assert_eq!(c.search_page, 0);
    assert!(c.search_results_tracks.is_empty());
    assert!(c.liked_track_ids.is_empty());
    assert!(!c.likes_loading);
}
