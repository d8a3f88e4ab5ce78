//! Which tracks can be played at all.
//!
//! A track is left out if it is not streamable, if its policy blocks it
//! where the listener is, or if access to it is blocked or limited to a
//! preview.

use vstd::prelude::*;
use vstd::string::*;
use crate::models::Track;
use crate::sequences::lemma_filter_one_more;

verus! {

/// `text` as `str::to_uppercase` gives it.
pub uninterp spec fn str_uppercase(text: Seq<char>) -> Seq<char>;

/// `text` as `str::to_lowercase` gives it.
pub uninterp spec fn str_lowercase(text: Seq<char>) -> Seq<char>;

/// `str::to_uppercase`. The claim: the result is what `str_uppercase`
/// names.
#[verifier::external_body]
fn to_uppercase(text: &str) -> (upper: String)
    ensures
        upper@ == str_uppercase(text@),
{
    text.to_uppercase()
}

/// `str::to_lowercase`. The claim: the result is what `str_lowercase`
/// names.
#[verifier::external_body]
fn to_lowercase(text: &str) -> (lower: String)
    ensures
        lower@ == str_lowercase(text@),
{
    text.to_lowercase()
}

/// True if the policy `policy` blocks the track: it reads `BLOCK`, in
/// whatever case.
pub open spec fn policy_blocks(policy: Seq<char>) -> bool {
    str_uppercase(policy) == "BLOCK"@
}

/// True if the access level `access` rules playback out: it reads `blocked`
/// or `preview`, in whatever case.
pub open spec fn access_restricted(access: Seq<char>) -> bool {
    str_lowercase(access) == "blocked"@ || str_lowercase(access) == "preview"@
}

/// True if the track passes the filter.
pub open spec fn passes_filter(track: Track) -> bool {
    &&& track.streamable == Some(true)
    &&& track.policy matches Some(policy) ==> !policy_blocks(policy@)
    &&& track.access matches Some(access) ==> !access_restricted(access@)
}

/// True if the track can be played now: it passes the filter and has a
/// stream address.
pub open spec fn playable(track: Track) -> bool {
    passes_filter(track) && track.stream_url is Some
}

/// Whether the policy text blocks the track.
pub fn is_blocking_policy(policy: &str) -> (blocks: bool)
    ensures
        blocks == policy_blocks(policy@),
{
    to_uppercase(policy) == String::from_str("BLOCK")
}

/// Whether the access text rules playback out.
pub fn is_restricted_access(access: &str) -> (restricted: bool)
    ensures
        restricted == access_restricted(access@),
{
    let lower = to_lowercase(access);
    lower == String::from_str("blocked") || lower == String::from_str("preview")
}

/// Whether `track` passes the filter.
pub fn is_streamable_here(track: &Track) -> (ok: bool)
    ensures
        ok == passes_filter(*track),
{
    let streamable = match track.streamable {
        Some(s) => s,
        None => false,
    };
    if !streamable {
        return false;
    }
    match &track.policy {
        Some(policy) => {
            if is_blocking_policy(policy.as_str()) {
                return false;
            }
        },
        None => {},
    }
    match &track.access {
        Some(access) => {
            if is_restricted_access(access.as_str()) {
                return false;
            }
        },
        None => {},
    }
    true
}

/// Whether `track` can be played now.
pub fn is_track_playable(track: &Track) -> (ok: bool)
    ensures
        ok == playable(*track),
{
    is_streamable_here(track) && track.stream_url.is_some()
}

/// The filter as a test on tracks.
pub open spec fn filter_test() -> spec_fn(Track) -> bool {
    |t: Track| passes_filter(t)
}

/// Keeps the tracks that pass the filter, in their order.
pub fn filter_playable_tracks(tracks: Vec<Track>) -> (kept: Vec<Track>)
    ensures
        kept@ == tracks@.filter(filter_test()),
{
    let ghost pred = filter_test();
    let ghost all = tracks@;
    let mut kept: Vec<Track> = Vec::new();
    proof {
        reveal(Seq::filter);
        assert(all.take(0) =~= Seq::<Track>::empty());
    }
    for track in it: tracks
        invariant
            it.seq() == all,
            forall|t: Track| #[trigger] pred(t) == passes_filter(t),
            kept@ == all.take(it.index() as int).filter(pred),
    {
        let ghost i = it.index() as int;
        proof {
            lemma_filter_one_more(all, i, pred);
        }
        assert(track == all[i]);
        if is_streamable_here(&track) {
            kept.push(track);
        }
    }
    proof {
        assert(all.take(all.len() as int) =~= all);
    }
    kept
}

} // verus!
