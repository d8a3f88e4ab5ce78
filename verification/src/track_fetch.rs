//! What a fetch of tracks from the service amounts to.

use vstd::prelude::*;
use vstd::string::*;
use crate::models::Track;
use crate::text::{contains_text, str_contains};
use crate::track_filter::{is_track_playable, playable};

verus! {

/// A fetch of a track is given up after this many seconds.
pub const TRACK_FETCH_TIMEOUT_SECS: u64 = 10;

/// What came back from the fetch of one track.
#[derive(Debug)]
pub enum FetchOutcome {
    /// The track.
    Track(Track),
    /// The service answered with this error.
    ApiError(String),
    /// No answer came in time.
    Timeout,
}

/// True if the error text `message` says that the track is not to be had,
/// rather than that the fetch went wrong.
pub open spec fn says_unavailable(message: Seq<char>) -> bool {
    ||| contains_text(message, "not playable"@)
    ||| contains_text(message, "not available"@)
    ||| contains_text(message, "restricted"@)
}

/// Whether the error text says that the track is not to be had.
pub fn is_unavailable_error(message: &str) -> (unavailable: bool)
    ensures
        unavailable == says_unavailable(message@),
{
    str_contains(message, "not playable") || str_contains(message, "not available")
        || str_contains(message, "restricted")
}

/// Turns what the fetch of one track brought into what is sent on: the
/// track if it can be played; nothing, so that the next track is tried, if
/// it cannot or the service says that it is not to be had; and an error
/// otherwise.
pub fn classify_track_fetch(outcome: FetchOutcome) -> (result: Result<Vec<Track>, String>)
    ensures
        match outcome {
            FetchOutcome::Track(track) => result matches Ok(tracks) && tracks@ == (if playable(
                track,
            ) {
                seq![track]
            } else {
                Seq::empty()
            }),
            FetchOutcome::ApiError(message) => if says_unavailable(message@) {
                result matches Ok(tracks) && tracks@.len() == 0
            } else {
                result == Err::<Vec<Track>, String>(message)
            },
            FetchOutcome::Timeout => result matches Err(message) && message@
                == "API timeout (10s exceeded)"@,
        },
{
    match outcome {
        FetchOutcome::Track(track) => {
            let mut tracks: Vec<Track> = Vec::new();
            if is_track_playable(&track) {
                tracks.push(track);
                assert(tracks@ =~= seq![track]);
            }
            Ok(tracks)
        },
        FetchOutcome::ApiError(message) => {
            if is_unavailable_error(message.as_str()) {
                Ok(Vec::new())
            } else {
                Err(message)
            }
        },
        FetchOutcome::Timeout => Err(String::from_str("API timeout (10s exceeded)")),
    }
}

/// Turns the tracks that a fetch of several brought into what is sent on:
/// the tracks, or an error if there are none.
pub fn classify_playlist_fetch(tracks: Vec<Track>) -> (result: Result<Vec<Track>, String>)
    ensures
        match result {
            Ok(kept) => tracks@.len() > 0 && kept == tracks,
            Err(message) => tracks@.len() == 0 && message@ == "No playable tracks found"@,
        },
{
    if tracks.len() > 0 {
        Ok(tracks)
    } else {
        Err(String::from_str("No playable tracks found"))
    }
}

} // verus!
