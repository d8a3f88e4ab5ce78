//! What the screens show: search results, likes, playlists, suggestions.

use vstd::prelude::*;
use std::collections::HashSet;
use crate::home::HomeContent;
use crate::library::{
    HOME_RECOMMENDATIONS_LIMIT, fill_from_records, fill_recommendations, filled_from_records,
    filled_up, id_set, track_ids,
};
use crate::models::{PlaybackRecord, Playlist, Track};

verus! {

/// What a search looks for.
#[derive(Debug, Clone, Copy, PartialEq, Eq, Structural)]
pub enum SearchType {
    Tracks,
    Playlists,
}

/// The order of the Likes tab.
#[derive(Debug, Clone, Copy, PartialEq, Eq, Structural)]
pub enum LikesSortOrder {
    /// Most recently liked first.
    RecentFirst,
    TitleAZ,
    ArtistAZ,
}

/// The order of the Playlists tab.
#[derive(Debug, Clone, Copy, PartialEq, Eq, Structural)]
pub enum PlaylistsSortOrder {
    /// Most recently added first.
    RecentFirst,
    NameAZ,
    TrackCount,
}

/// The order of the Suggestions tab.
#[derive(Debug, Clone, Copy, PartialEq, Eq, Structural)]
pub enum SuggestionsSortOrder {
    /// As the service returned them.
    Default,
    TitleAZ,
    ArtistAZ,
}

/// One page of search results as it comes from the background.
#[derive(Debug)]
pub struct SearchResults {
    pub tracks: Vec<Track>,
    pub playlists: Vec<Playlist>,
    pub next_href: Option<String>,
}

/// What a background fetch has brought so far.
#[derive(Debug)]
pub enum Arrival<T> {
    /// No fetch is under way.
    Idle,
    /// A fetch is under way and has brought nothing yet.
    Waiting,
    /// The fetch has brought this.
    Here(T),
}

/// The suggestions are filled up to this many tracks from the history.
pub const SUGGESTIONS_FILL_LIMIT: usize = 12;

/// The ids of `playlists`, in their order.
pub open spec fn playlist_ids(playlists: Seq<Playlist>) -> Seq<u64> {
    playlists.map_values(|p: Playlist| p.id)
}

/// The default number of items on a page.
pub const DEFAULT_PAGE_SIZE: usize = 50;

/// The content of all screens.
#[derive(Debug)]
pub struct ContentState {
    pub search_query: String,
    pub search_type: SearchType,
    pub search_expanded: bool,
    pub search_results_tracks: Vec<Track>,
    pub search_results_playlists: Vec<Playlist>,
    pub search_loading: bool,
    pub search_next_href: Option<String>,
    pub search_has_more: bool,
    pub search_page: usize,
    pub search_page_size: usize,
    pub selected_playlist_id: Option<u64>,
    pub playlist_loading_id: Option<u64>,
    pub home_content: HomeContent,
    pub home_loading: bool,
    pub home_recommendations_loading: bool,
    pub suggestions_tracks: Vec<Track>,
    pub suggestions_page: usize,
    pub suggestions_page_size: usize,
    pub suggestions_loading: bool,
    pub suggestions_initial_fetch_done: bool,
    pub suggestions_search_filter: String,
    pub suggestions_sort_order: SuggestionsSortOrder,
    pub likes_tracks: Vec<Track>,
    pub user_tracks: Vec<Track>,
    pub likes_page: usize,
    pub likes_page_size: usize,
    pub likes_loading: bool,
    pub likes_initial_fetch_done: bool,
    pub liked_track_ids: HashSet<u64>,
    pub likes_search_filter: String,
    pub likes_sort_order: LikesSortOrder,
    pub playlists: Vec<Playlist>,
    pub liked_playlist_ids: HashSet<u64>,
    pub user_created_playlist_ids: HashSet<u64>,
    pub playlists_page: usize,
    pub playlists_page_size: usize,
    pub playlists_loading: bool,
    pub playlists_initial_fetch_done: bool,
    pub playlists_search_filter: String,
    pub playlists_sort_order: PlaylistsSortOrder,
    pub history_page: usize,
    pub history_page_size: usize,
    pub history_total_tracks: usize,
    pub history_search_filter: String,
}

impl ContentState {
    /// True if the search holds no results and stands at its first page.
    pub open spec fn search_is_clear(&self) -> bool {
        &&& self.search_results_tracks@.len() == 0
        &&& self.search_results_playlists@.len() == 0
        &&& self.search_next_href is None
        &&& !self.search_has_more
        &&& self.search_page == 0
    }

    /// True if nothing that was fetched for the user is left.
    pub open spec fn content_is_reset(&self) -> bool {
        &&& self.search_is_clear()
        &&& self.likes_tracks@.len() == 0
        &&& self.user_tracks@.len() == 0
        &&& self.liked_track_ids@ == Set::<u64>::empty()
        &&& self.playlists@.len() == 0
        &&& self.liked_playlist_ids@ == Set::<u64>::empty()
        &&& self.user_created_playlist_ids@ == Set::<u64>::empty()
        &&& self.suggestions_tracks@.len() == 0
        &&& self.home_content.recently_played@.len() == 0
        &&& self.home_content.recommendations@.len() == 0
        &&& !self.home_content.initial_fetch_done
        &&& !self.likes_initial_fetch_done
        &&& !self.playlists_initial_fetch_done
        &&& !self.suggestions_initial_fetch_done
    }

    /// True if what the user has chosen to see is the same in `self` and
    /// `other`: queries, filters, orders, pages and page sizes, the search
    /// page apart.
    pub open spec fn same_views(&self, other: &ContentState) -> bool {
        &&& self.search_query == other.search_query
        &&& self.search_type == other.search_type
        &&& self.search_expanded == other.search_expanded
        &&& self.search_page_size == other.search_page_size
        &&& self.selected_playlist_id == other.selected_playlist_id
        &&& self.playlist_loading_id == other.playlist_loading_id
        &&& self.suggestions_page == other.suggestions_page
        &&& self.suggestions_page_size == other.suggestions_page_size
        &&& self.suggestions_search_filter == other.suggestions_search_filter
        &&& self.suggestions_sort_order == other.suggestions_sort_order
        &&& self.likes_page == other.likes_page
        &&& self.likes_page_size == other.likes_page_size
        &&& self.likes_search_filter == other.likes_search_filter
        &&& self.likes_sort_order == other.likes_sort_order
        &&& self.playlists_page == other.playlists_page
        &&& self.playlists_page_size == other.playlists_page_size
        &&& self.playlists_search_filter == other.playlists_search_filter
        &&& self.playlists_sort_order == other.playlists_sort_order
        &&& self.history_page == other.history_page
        &&& self.history_page_size == other.history_page_size
        &&& self.history_total_tracks == other.history_total_tracks
        &&& self.history_search_filter == other.history_search_filter
    }

    /// True if the same fetches are marked as under way in `self` and
    /// `other`.
    pub open spec fn same_loading(&self, other: &ContentState) -> bool {
        &&& self.search_loading == other.search_loading
        &&& self.home_loading == other.home_loading
        &&& self.home_recommendations_loading == other.home_recommendations_loading
        &&& self.suggestions_loading == other.suggestions_loading
        &&& self.likes_loading == other.likes_loading
        &&& self.playlists_loading == other.playlists_loading
    }

    /// True if what a search or a reset never touches is the same in
    /// `self` and `other`.
    pub open spec fn same_settings(&self, other: &ContentState) -> bool {
        self.same_views(other) && self.same_loading(other)
    }

    /// True if the liked tracks and the user's own tracks, and what is
    /// known of their loading, are the same in `self` and `other`.
    pub open spec fn same_likes(&self, other: &ContentState) -> bool {
        &&& self.likes_tracks == other.likes_tracks
        &&& self.user_tracks == other.user_tracks
        &&& self.liked_track_ids == other.liked_track_ids
        &&& self.likes_initial_fetch_done == other.likes_initial_fetch_done
        &&& self.likes_loading == other.likes_loading
    }

    /// True if the playlists, and what is known of their loading, are the
    /// same in `self` and `other`.
    pub open spec fn same_playlists(&self, other: &ContentState) -> bool {
        &&& self.playlists == other.playlists
        &&& self.liked_playlist_ids == other.liked_playlist_ids
        &&& self.user_created_playlist_ids == other.user_created_playlist_ids
        &&& self.playlists_initial_fetch_done == other.playlists_initial_fetch_done
        &&& self.playlists_loading == other.playlists_loading
    }

    /// True if the suggestions, and what is known of their loading, are
    /// the same in `self` and `other`.
    pub open spec fn same_suggestions(&self, other: &ContentState) -> bool {
        &&& self.suggestions_tracks == other.suggestions_tracks
        &&& self.suggestions_initial_fetch_done == other.suggestions_initial_fetch_done
        &&& self.suggestions_loading == other.suggestions_loading
    }

    /// True if the content of the home screen, and what is known of its
    /// loading, are the same in `self` and `other`.
    pub open spec fn same_home(&self, other: &ContentState) -> bool {
        &&& self.home_content == other.home_content
        &&& self.home_loading == other.home_loading
        &&& self.home_recommendations_loading == other.home_recommendations_loading
    }

    /// True if the search results are the same in `self` and `other`.
    pub open spec fn same_search(&self, other: &ContentState) -> bool {
        &&& self.search_results_tracks == other.search_results_tracks
        &&& self.search_results_playlists == other.search_results_playlists
        &&& self.search_next_href == other.search_next_href
        &&& self.search_has_more == other.search_has_more
        &&& self.search_page == other.search_page
    }

    /// True if what was fetched for the user, the search apart, is the same
    /// in `self` and `other`.
    pub open spec fn same_library(&self, other: &ContentState) -> bool {
        &&& self.likes_tracks == other.likes_tracks
        &&& self.user_tracks == other.user_tracks
        &&& self.liked_track_ids == other.liked_track_ids
        &&& self.playlists == other.playlists
        &&& self.liked_playlist_ids == other.liked_playlist_ids
        &&& self.user_created_playlist_ids == other.user_created_playlist_ids
        &&& self.suggestions_tracks == other.suggestions_tracks
        &&& self.home_content == other.home_content
        &&& self.likes_initial_fetch_done == other.likes_initial_fetch_done
        &&& self.playlists_initial_fetch_done == other.playlists_initial_fetch_done
        &&& self.suggestions_initial_fetch_done == other.suggestions_initial_fetch_done
    }

    /// Whether the track `track_id` is liked.
    pub fn is_track_liked(&self, track_id: u64) -> (liked: bool)
        ensures
            liked == self.liked_track_ids@.contains(track_id),
    {
        self.liked_track_ids.contains(&track_id)
    }

    /// Whether the playlist `playlist_id` is liked.
    pub fn is_playlist_liked(&self, playlist_id: u64) -> (liked: bool)
        ensures
            liked == self.liked_playlist_ids@.contains(playlist_id),
    {
        self.liked_playlist_ids.contains(&playlist_id)
    }

    /// Drops the search results and goes back to the first page.
    pub fn clear_search(&mut self)
        ensures
            final(self).search_is_clear(),
            final(self).same_settings(old(self)),
            final(self).same_library(old(self)),
    {
        self.search_results_tracks.clear();
        self.search_results_playlists.clear();
        self.search_next_href = None;
        self.search_has_more = false;
        self.search_page = 0;
    }

    /// Drops everything that was fetched for the user, at logout.
    pub fn reset_all_content(&mut self)
        ensures
            final(self).content_is_reset(),
            final(self).same_settings(old(self)),
    {
        self.clear_search();
        self.likes_tracks.clear();
        self.user_tracks.clear();
        self.liked_track_ids.clear();
        self.playlists.clear();
        self.liked_playlist_ids.clear();
        self.user_created_playlist_ids.clear();
        self.suggestions_tracks.clear();
        self.home_content = HomeContent::default();
        self.likes_initial_fetch_done = false;
        self.playlists_initial_fetch_done = false;
        self.suggestions_initial_fetch_done = false;
    }
}

impl ContentState {
    /// Takes in a page of search results: it replaces the page that was
    /// shown, and there is more if the page names a next one.
    pub fn check_search_results(&mut self, results: SearchResults)
        ensures
            !final(self).search_loading,
            final(self).search_results_tracks == results.tracks,
            final(self).search_results_playlists == results.playlists,
            final(self).search_next_href == results.next_href,
            final(self).search_has_more == (results.next_href is Some),
            final(self).search_page == old(self).search_page,
            final(self).same_views(old(self)),
            final(self).same_library(old(self)),
            final(self).home_loading == old(self).home_loading,
            final(self).home_recommendations_loading == old(self).home_recommendations_loading,
            final(self).suggestions_loading == old(self).suggestions_loading,
            final(self).likes_loading == old(self).likes_loading,
            final(self).playlists_loading == old(self).playlists_loading,
    {
        self.search_loading = false;
        self.search_has_more = results.next_href.is_some();
        self.search_results_tracks = results.tracks;
        self.search_results_playlists = results.playlists;
        self.search_next_href = results.next_href;
    }

    /// True if everything but the liked tracks, their ids, the user's own
    /// tracks and the loading of the likes is the same in `self` and
    /// `other`.
    pub open spec fn same_but_likes(&self, other: &ContentState) -> bool {
        &&& self.same_views(other)
        &&& self.same_search(other)
        &&& self.search_loading == other.search_loading
        &&& self.home_loading == other.home_loading
        &&& self.home_recommendations_loading == other.home_recommendations_loading
        &&& self.suggestions_loading == other.suggestions_loading
        &&& self.playlists_loading == other.playlists_loading
        &&& self.playlists == other.playlists
        &&& self.liked_playlist_ids == other.liked_playlist_ids
        &&& self.user_created_playlist_ids == other.user_created_playlist_ids
        &&& self.suggestions_tracks == other.suggestions_tracks
        &&& self.home_content == other.home_content
        &&& self.likes_initial_fetch_done == other.likes_initial_fetch_done
        &&& self.playlists_initial_fetch_done == other.playlists_initial_fetch_done
        &&& self.suggestions_initial_fetch_done == other.suggestions_initial_fetch_done
    }

    /// Takes in the liked tracks. The set of liked ids is made anew from
    /// them.
    pub fn set_liked_tracks(&mut self, tracks: Vec<Track>)
        ensures
            final(self).likes_tracks == tracks,
            final(self).liked_track_ids@ == track_ids(tracks@).to_set(),
            final(self).user_tracks == old(self).user_tracks,
            final(self).likes_loading == old(self).likes_loading,
            final(self).same_but_likes(old(self)),
    {
        self.liked_track_ids = id_set(&tracks);
        self.likes_tracks = tracks;
    }

    /// Takes in the user's own tracks.
    pub fn set_user_tracks(&mut self, tracks: Vec<Track>)
        ensures
            final(self).user_tracks == tracks,
            final(self).likes_tracks == old(self).likes_tracks,
            final(self).liked_track_ids == old(self).liked_track_ids,
            final(self).likes_loading == old(self).likes_loading,
            final(self).same_but_likes(old(self)),
    {
        self.user_tracks = tracks;
    }

    /// Marks the loading of the likes as over unless a fetch is still
    /// waited for.
    pub fn settle_likes_loading(&mut self, still_waiting: bool)
        ensures
            final(self).likes_loading == (old(self).likes_loading && still_waiting),
            final(self).user_tracks == old(self).user_tracks,
            final(self).likes_tracks == old(self).likes_tracks,
            final(self).liked_track_ids == old(self).liked_track_ids,
            final(self).same_but_likes(old(self)),
    {
        if !still_waiting {
            self.likes_loading = false;
        }
    }

    /// Takes in what the fetches of the liked tracks and of the user's own
    /// tracks have brought. The set of liked ids is made anew from the
    /// liked tracks. Loading is over when neither fetch is still waited
    /// for.
    pub fn check_likes_updates(&mut self, liked: Arrival<Vec<Track>>, own: Arrival<Vec<Track>>)
        ensures
            liked matches Arrival::Here(tracks) ==> final(self).likes_tracks == tracks
                && final(self).liked_track_ids@ == track_ids(tracks@).to_set(),
            !(liked is Here) ==> final(self).likes_tracks == old(self).likes_tracks
                && final(self).liked_track_ids == old(self).liked_track_ids,
            own matches Arrival::Here(tracks) ==> final(self).user_tracks == tracks,
            !(own is Here) ==> final(self).user_tracks == old(self).user_tracks,
            final(self).likes_loading == (old(self).likes_loading && (liked is Waiting
                || own is Waiting)),
            final(self).same_but_likes(old(self)),
    {
        let waiting_liked = match liked {
            Arrival::Here(tracks) => {
                self.set_liked_tracks(tracks);
                false
            },
            Arrival::Waiting => true,
            Arrival::Idle => false,
        };
        let waiting_own = match own {
            Arrival::Here(tracks) => {
                self.set_user_tracks(tracks);
                false
            },
            Arrival::Waiting => true,
            Arrival::Idle => false,
        };
        self.settle_likes_loading(waiting_liked || waiting_own);
    }

    /// Takes in the user's playlists and the ids of those that the user
    /// has made. Every playlist that came counts as liked.
    pub fn check_playlists_updates(&mut self, playlists: Vec<Playlist>, created_ids: Vec<u64>)
        ensures
            final(self).playlists == playlists,
            final(self).liked_playlist_ids@ == playlist_ids(playlists@).to_set(),
            final(self).user_created_playlist_ids@ == created_ids@.to_set(),
            !final(self).playlists_loading,
            final(self).playlists_initial_fetch_done == old(self).playlists_initial_fetch_done,
            final(self).same_views(old(self)),
            final(self).same_search(old(self)),
            final(self).search_loading == old(self).search_loading,
            final(self).same_likes(old(self)),
            final(self).same_suggestions(old(self)),
            final(self).same_home(old(self)),
    {
        let mut created: HashSet<u64> = HashSet::new();
        let mut i: usize = 0;
        assert(created_ids@.take(0).to_set() =~= Set::<u64>::empty());
        while i < created_ids.len()
            invariant
                i <= created_ids@.len(),
                created@ == created_ids@.take(i as int).to_set(),
            decreases created_ids@.len() - i,
        {
            proof {
                assert(created_ids@.take(i + 1) =~= created_ids@.take(i as int).push(
                    created_ids@[i as int],
                ));
                created_ids@.take(i as int).lemma_push_to_set_commute(created_ids@[i as int]);
            }
            created.insert(created_ids[i]);
            i = i + 1;
        }
        assert(created_ids@.take(created_ids@.len() as int) =~= created_ids@);
        let mut liked: HashSet<u64> = HashSet::new();
        let mut k: usize = 0;
        assert(playlist_ids(playlists@.take(0)).to_set() =~= Set::<u64>::empty());
        while k < playlists.len()
            invariant
                k <= playlists@.len(),
                liked@ == playlist_ids(playlists@.take(k as int)).to_set(),
            decreases playlists@.len() - k,
        {
            proof {
                assert(playlist_ids(playlists@.take(k + 1)) =~= playlist_ids(
                    playlists@.take(k as int),
                ).push(playlists@[k as int].id));
                playlist_ids(playlists@.take(k as int)).lemma_push_to_set_commute(
                    playlists@[k as int].id,
                );
            }
            liked.insert(playlists[k].id);
            k = k + 1;
        }
        assert(playlists@.take(playlists@.len() as int) =~= playlists@);
        self.user_created_playlist_ids = created;
        self.liked_playlist_ids = liked;
        self.playlists = playlists;
        self.playlists_loading = false;
    }

    /// Takes in the suggestions as they come for the Suggestions tab.
    pub fn check_suggestions_updates(&mut self, tracks: Vec<Track>)
        ensures
            final(self).suggestions_tracks == tracks,
            !final(self).suggestions_loading,
            final(self).suggestions_initial_fetch_done == old(self).suggestions_initial_fetch_done,
            final(self).same_views(old(self)),
            final(self).same_search(old(self)),
            final(self).search_loading == old(self).search_loading,
            final(self).same_likes(old(self)),
            final(self).same_playlists(old(self)),
            final(self).same_home(old(self)),
    {
        self.suggestions_tracks = tracks;
        self.suggestions_loading = false;
    }

    /// Takes in the suggestions as they come while the home screen is
    /// shown: fewer than twelve are filled up with tracks of the history
    /// that are not among them.
    pub fn check_home_suggestions(&mut self, tracks: Vec<Track>, history: &Vec<PlaybackRecord>)
        ensures
            final(self).suggestions_tracks@ == filled_from_records(tracks@, history@, 12),
            !final(self).suggestions_loading,
            final(self).suggestions_initial_fetch_done,
            final(self).same_views(old(self)),
            final(self).same_search(old(self)),
            final(self).search_loading == old(self).search_loading,
            final(self).same_likes(old(self)),
            final(self).same_playlists(old(self)),
            final(self).same_home(old(self)),
    {
        self.suggestions_tracks = fill_from_records(tracks, history, SUGGESTIONS_FILL_LIMIT);
        self.suggestions_loading = false;
        self.suggestions_initial_fetch_done = true;
    }

    /// Takes in the recently played tracks. Returns whether recommendations
    /// are to be fetched for them: if there are any, and no such fetch is
    /// under way.
    pub fn check_recently_played(&mut self, tracks: Vec<Track>) -> (fetch_recommendations: bool)
        ensures
            final(self).home_content.recently_played == tracks,
            final(self).home_content.recommendations == old(self).home_content.recommendations,
            final(self).home_content.initial_fetch_done,
            !final(self).home_loading,
            fetch_recommendations == (tracks@.len() > 0 && !old(
                self,
            ).home_recommendations_loading),
            final(self).home_recommendations_loading == old(self).home_recommendations_loading,
            final(self).same_views(old(self)),
            final(self).same_search(old(self)),
            final(self).search_loading == old(self).search_loading,
            final(self).same_likes(old(self)),
            final(self).same_playlists(old(self)),
            final(self).same_suggestions(old(self)),
    {
        let any = tracks.len() > 0;
        self.home_content.recently_played = tracks;
        self.home_content.initial_fetch_done = true;
        self.home_loading = false;
        any && !self.home_recommendations_loading
    }

    /// Takes in the recommendations for the home screen: fewer than six
    /// are filled up with recently played tracks that are not among them,
    /// and six are kept at most.
    pub fn check_recommendations(&mut self, tracks: Vec<Track>)
        ensures
            final(self).home_content.recommendations@ == filled_up(
                tracks@,
                old(self).home_content.recently_played@,
                6,
            ),
            final(self).home_content.recommendations@.len() <= 6,
            final(self).home_content.recently_played == old(self).home_content.recently_played,
            final(self).home_content.initial_fetch_done == old(
                self,
            ).home_content.initial_fetch_done,
            !final(self).home_recommendations_loading,
            final(self).home_loading == old(self).home_loading,
            final(self).same_views(old(self)),
            final(self).same_search(old(self)),
            final(self).search_loading == old(self).search_loading,
            final(self).same_likes(old(self)),
            final(self).same_playlists(old(self)),
            final(self).same_suggestions(old(self)),
    {
        let filled = fill_recommendations(
            tracks,
            &self.home_content.recently_played,
            HOME_RECOMMENDATIONS_LIMIT,
        );
        self.home_content.recommendations = filled;
        self.home_recommendations_loading = false;
    }
}

impl ContentState {
    /// The content as the player starts with it: nothing fetched, and
    /// every list in pages of `page_size` items.
    pub fn with_page_size(page_size: usize) -> (c: ContentState)
        ensures
            c.content_is_reset(),
            c.search_page_size == page_size,
            c.suggestions_page_size == page_size,
            c.likes_page_size == page_size,
            c.playlists_page_size == page_size,
            c.history_page_size == page_size,
            c.search_page == 0,
            c.suggestions_page == 0,
            c.likes_page == 0,
            c.playlists_page == 0,
            c.history_page == 0,
            c.search_type == SearchType::Tracks,
            c.suggestions_sort_order == SuggestionsSortOrder::Default,
            c.likes_sort_order == LikesSortOrder::RecentFirst,
            c.playlists_sort_order == PlaylistsSortOrder::RecentFirst,
            !c.search_loading && !c.home_loading && !c.home_recommendations_loading,
            !c.suggestions_loading && !c.likes_loading && !c.playlists_loading,
    {
        let mut content = ContentState::default();
        content.search_page_size = page_size;
        content.suggestions_page_size = page_size;
        content.likes_page_size = page_size;
        content.playlists_page_size = page_size;
        content.history_page_size = page_size;
        content
    }
}

impl Default for ContentState {
    /// Nothing fetched, nothing searched, every list on its first page of
    /// `DEFAULT_PAGE_SIZE` items, every tab in its default order.
    fn default() -> (c: ContentState)
        ensures
            c.content_is_reset(),
            c.search_query@.len() == 0,
            c.search_type == SearchType::Tracks,
            !c.search_expanded,
            !c.search_loading,
            c.search_page_size == 50,
            c.selected_playlist_id is None,
            c.playlist_loading_id is None,
            !c.home_loading,
            !c.home_recommendations_loading,
            c.suggestions_page == 0,
            c.suggestions_page_size == 50,
            !c.suggestions_loading,
            c.suggestions_search_filter@.len() == 0,
            c.suggestions_sort_order == SuggestionsSortOrder::Default,
            c.likes_page == 0,
            c.likes_page_size == 50,
            !c.likes_loading,
            c.likes_search_filter@.len() == 0,
            c.likes_sort_order == LikesSortOrder::RecentFirst,
            c.playlists_page == 0,
            c.playlists_page_size == 50,
            !c.playlists_loading,
            c.playlists_search_filter@.len() == 0,
            c.playlists_sort_order == PlaylistsSortOrder::RecentFirst,
            c.history_page == 0,
            c.history_page_size == 50,
            c.history_total_tracks == 0,
            c.history_search_filter@.len() == 0,
    {
        ContentState {
            search_query: String::new(),
            search_type: SearchType::Tracks,
            search_expanded: false,
            search_results_tracks: Vec::new(),
            search_results_playlists: Vec::new(),
            search_loading: false,
            search_next_href: None,
            search_has_more: false,
            search_page: 0,
            search_page_size: DEFAULT_PAGE_SIZE,
            selected_playlist_id: None,
            playlist_loading_id: None,
            home_content: HomeContent::default(),
            home_loading: false,
            home_recommendations_loading: false,
            suggestions_tracks: Vec::new(),
            suggestions_page: 0,
            suggestions_page_size: DEFAULT_PAGE_SIZE,
            suggestions_loading: false,
            suggestions_initial_fetch_done: false,
            suggestions_search_filter: String::new(),
            suggestions_sort_order: SuggestionsSortOrder::Default,
            likes_tracks: Vec::new(),
            user_tracks: Vec::new(),
            likes_page: 0,
            likes_page_size: DEFAULT_PAGE_SIZE,
            likes_loading: false,
            likes_initial_fetch_done: false,
            liked_track_ids: HashSet::new(),
            likes_search_filter: String::new(),
            likes_sort_order: LikesSortOrder::RecentFirst,
            playlists: Vec::new(),
            liked_playlist_ids: HashSet::new(),
            user_created_playlist_ids: HashSet::new(),
            playlists_page: 0,
            playlists_page_size: DEFAULT_PAGE_SIZE,
            playlists_loading: false,
            playlists_initial_fetch_done: false,
            playlists_search_filter: String::new(),
            playlists_sort_order: PlaylistsSortOrder::RecentFirst,
            history_page: 0,
            history_page_size: DEFAULT_PAGE_SIZE,
            history_total_tracks: 0,
            history_search_filter: String::new(),
        }
    }
}

} // verus!
