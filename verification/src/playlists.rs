//! Loading the tracks of a playlist, page by page.

use vstd::prelude::*;
use vstd::string::*;
use crate::models::{Playlist, Track};
use crate::text::{append_decimal, decimal};
use crate::track_filter::{filter_playable_tracks, filter_test};

verus! {

/// A playlist is fetched in this many pages at most.
pub const MAX_PAGES: usize = 10;

/// The number of tracks on a page when a whole playlist is fetched.
pub const FULL_FETCH_PAGE_TRACKS: u64 = 100;

/// The number of tracks in a chunk when a playlist is fetched while it
/// plays.
pub const CHUNK_TRACKS: u64 = 200;

/// The pause between two chunks, in milliseconds.
pub const CHUNK_PAUSE_MS: u64 = 50;

/// The address of the playlist `id` in full.
pub open spec fn playlist_address(id: u64) -> Seq<char> {
    "https://api.soundcloud.com/playlists/"@ + decimal(id as nat) + "?representation=full"@
}

/// The address of the first page of the tracks of the playlist `id`, with
/// `limit` tracks to a page.
pub open spec fn tracks_address(id: u64, limit: u64) -> Seq<char> {
    "https://api.soundcloud.com/playlists/"@ + decimal(id as nat) + "/tracks?limit="@ + decimal(
        limit as nat,
    ) + "&linked_partitioning=true"@
}

/// The address of the playlist `id` in full.
pub fn playlist_url(id: u64) -> (url: String)
    ensures
        url@ == playlist_address(id),
{
    let mut url = String::from_str("https://api.soundcloud.com/playlists/");
    append_decimal(&mut url, id);
    url.append("?representation=full");
    url
}

/// The address of the first page of the tracks of the playlist `id`.
pub fn playlist_tracks_url(id: u64, limit: u64) -> (url: String)
    ensures
        url@ == tracks_address(id, limit),
{
    let mut url = String::from_str("https://api.soundcloud.com/playlists/");
    append_decimal(&mut url, id);
    url.append("/tracks?limit=");
    append_decimal(&mut url, limit);
    url.append("&linked_partitioning=true");
    url
}

/// Whether the tracks of a playlist are to be fetched page by page: if it
/// came with fewer tracks than it counts.
pub fn needs_full_fetch(loaded: usize, track_count: u32) -> (needed: bool)
    ensures
        needed == (loaded < track_count),
{
    loaded < track_count as usize
}

/// The page to fetch after `pages_fetched` pages, if there is one: the one
/// that the last page named, as long as the limit of pages is not reached.
pub fn next_page(pages_fetched: usize, next_href: Option<String>) -> (next: Option<String>)
    ensures
        next == (if pages_fetched < MAX_PAGES {
            next_href
        } else {
            None
        }),
{
    if pages_fetched < MAX_PAGES {
        next_href
    } else {
        None
    }
}

/// The tracks of a playlist once its pages have been fetched: those of the
/// pages if they brought any, else those that came with the playlist; of
/// these, the ones that can be played.
pub fn finish_playlist_tracks(with_playlist: Vec<Track>, from_pages: Vec<Track>) -> (tracks: Vec<
    Track,
>)
    ensures
        tracks@ == (if from_pages@.len() > 0 {
            from_pages@
        } else {
            with_playlist@
        }).filter(filter_test()),
{
    if from_pages.len() > 0 {
        filter_playable_tracks(from_pages)
    } else {
        filter_playable_tracks(with_playlist)
    }
}

/// What happens when the user opens a playlist.
#[derive(Debug)]
pub struct PlaylistLoadPlan {
    /// The playlist that is selected from now on.
    pub selected_playlist_id: u64,
    /// The tracks to load into the queue and to play from the first on, if
    /// there are any.
    pub preview_tracks: Vec<Track>,
    /// True if the queue is to be emptied before the chunks come.
    pub clear_queue: bool,
    /// True if the rest of the playlist is to be fetched in chunks.
    pub fetch_chunks: bool,
    /// True if the chunks are needed but there is no token to fetch them
    /// with.
    pub token_missing: bool,
}

/// The test that holds of the tracks that are marked streamable.
pub open spec fn marked_streamable() -> spec_fn(Track) -> bool {
    |t: Track| t.streamable == Some(true)
}

/// Decides what happens when the user opens `playlist`. The tracks that
/// came with it play at once; the rest is fetched in chunks if the
/// playlist counts more tracks than came with it.
pub fn load_playlist(playlist: &Playlist, has_token: bool) -> (plan: PlaylistLoadPlan)
    ensures
        plan.selected_playlist_id == playlist.id,
        plan.preview_tracks@ == playlist.tracks@.filter(marked_streamable()),
        plan.clear_queue == (playlist.tracks@.len() == 0 && playlist.tracks@.len()
            < playlist.track_count),
        plan.fetch_chunks == (playlist.tracks@.len() < playlist.track_count && has_token),
        plan.token_missing == (playlist.tracks@.len() < playlist.track_count && !has_token),
{
    let ghost pred = marked_streamable();
    let has_preview = playlist.tracks.len() > 0;
    let needs_fetch = needs_full_fetch(playlist.tracks.len(), playlist.track_count);
    let mut preview: Vec<Track> = Vec::new();
    let mut i: usize = 0;
    proof {
        reveal(Seq::filter);
        assert(playlist.tracks@.take(0) =~= Seq::<Track>::empty());
    }
    while i < playlist.tracks.len()
        invariant
            i <= playlist.tracks@.len(),
            pred == marked_streamable(),
            preview@ == playlist.tracks@.take(i as int).filter(pred),
        decreases playlist.tracks@.len() - i,
    {
        proof {
            crate::sequences::lemma_filter_one_more(playlist.tracks@, i as int, pred);
        }
        let streamable = match playlist.tracks[i].streamable {
            Some(s) => s,
            None => false,
        };
        if streamable {
            preview.push(playlist.tracks[i].duplicate());
        }
        i = i + 1;
    }
    proof {
        assert(playlist.tracks@.take(playlist.tracks@.len() as int) =~= playlist.tracks@);
    }
    PlaylistLoadPlan {
        selected_playlist_id: playlist.id,
        preview_tracks: preview,
        clear_queue: !has_preview && needs_fetch,
        fetch_chunks: needs_fetch && has_token,
        token_missing: needs_fetch && !has_token,
    }
}

/// What a chunk of a playlist leads to.
#[derive(Debug)]
pub enum ChunkStep {
    /// The empty chunk at the end: loading is over.
    Complete,
    /// Add these tracks to the queue; if `start_playback` is set, play the
    /// first track of the queue.
    Append { tracks: Vec<Track>, start_playback: bool },
    /// The chunk holds nothing that can be played.
    Nothing,
}

/// Decides what a chunk of a playlist leads to. `queue_is_empty` says
/// whether the queue holds no track yet: then playback starts with this
/// chunk.
pub fn handle_playlist_chunk(chunk: Vec<Track>, queue_is_empty: bool) -> (step: ChunkStep)
    ensures
        match step {
            ChunkStep::Complete => chunk@.len() == 0,
            ChunkStep::Append { tracks, start_playback } => {
                &&& chunk@.len() > 0
                &&& tracks@ == chunk@.filter(filter_test())
                &&& tracks@.len() > 0
                &&& start_playback == queue_is_empty
            },
            ChunkStep::Nothing => chunk@.len() > 0 && chunk@.filter(filter_test()).len() == 0,
        },
{
    if chunk.len() == 0 {
        return ChunkStep::Complete;
    }
    let tracks = filter_playable_tracks(chunk);
    if tracks.len() > 0 {
        ChunkStep::Append { tracks, start_playback: queue_is_empty }
    } else {
        ChunkStep::Nothing
    }
}

} // verus!
