//! Likes of tracks and playlists.
//!
//! A toggle changes the local set of liked ids at once and says what to
//! tell the user. The request to the service is sent by the caller.

use vstd::prelude::*;
use vstd::string::*;
use std::collections::HashSet;

verus! {

/// What a like or unlike is aimed at.
#[derive(Debug, Clone, Copy)]
pub enum LikeTarget {
    Track(u64),
    Playlist(u64),
}

/// The outcome of a toggle, for the user's eyes.
#[derive(Debug)]
pub struct ToggleResult {
    /// True if the target is liked now.
    pub is_liked: bool,
    /// What to show if the user is signed in.
    pub success_message: String,
    /// What to show if the user is not.
    pub error_message: String,
}

/// The upper-case form of `c` as `char::to_uppercase` gives it: one
/// character or more.
pub uninterp spec fn char_uppercase(c: char) -> Seq<char>;

/// `text` with its first character in upper case.
pub open spec fn capitalized(text: Seq<char>) -> Seq<char> {
    if text.len() == 0 {
        text
    } else {
        char_uppercase(text[0]) + text.subrange(1, text.len() as int)
    }
}

/// The set of liked ids after the like of `id` has been toggled.
pub open spec fn toggled(liked: Set<u64>, id: u64) -> Set<u64> {
    if liked.contains(id) {
        liked.remove(id)
    } else {
        liked.insert(id)
    }
}

/// The message for a signed-in user after a toggle of a target of kind
/// `kind`.
pub open spec fn toggle_message(was_liked: bool, kind: Seq<char>) -> Seq<char> {
    (if was_liked {
        "Removed from Liked "@
    } else {
        "Added to Liked "@
    }) + capitalized(kind) + "s"@
}

impl LikeTarget {
    pub open spec fn target_id(&self) -> u64 {
        match self {
            LikeTarget::Track(id) => *id,
            LikeTarget::Playlist(id) => *id,
        }
    }

    pub open spec fn kind_text(&self) -> Seq<char> {
        match self {
            LikeTarget::Track(_) => "track"@,
            LikeTarget::Playlist(_) => "playlist"@,
        }
    }

    /// The id of the track or playlist.
    pub fn id(&self) -> (id: u64)
        ensures
            id == self.target_id(),
    {
        match self {
            LikeTarget::Track(id) => *id,
            LikeTarget::Playlist(id) => *id,
        }
    }

    /// The kind of the target in words.
    pub fn kind(&self) -> (kind: &'static str)
        ensures
            kind@ == self.kind_text(),
    {
        match self {
            LikeTarget::Track(_) => "track",
            LikeTarget::Playlist(_) => "playlist",
        }
    }
}

/// `char::to_uppercase`, its characters gathered in a string. The claim:
/// the result is what `char_uppercase` names.
#[verifier::external_body]
fn uppercase_of(c: char) -> (upper: String)
    ensures
        upper@ == char_uppercase(c),
{
    c.to_uppercase().collect()
}

/// `text` with its first character in upper case.
pub fn capitalize(text: &str) -> (out: String)
    ensures
        out@ == capitalized(text@),
{
    let len = text.unicode_len();
    if len == 0 {
        let out = String::new();
        assert(out@ =~= text@);
        out
    } else {
        let first = text.get_char(0);
        uppercase_of(first).concat(text.substring_char(1, len))
    }
}

/// Toggles the like of `target` in the local set `liked_ids`.
pub fn toggle_like(target: LikeTarget, liked_ids: &mut HashSet<u64>) -> (result: ToggleResult)
    ensures
        final(liked_ids)@ == toggled(old(liked_ids)@, target.target_id()),
        result.is_liked == !old(liked_ids)@.contains(target.target_id()),
        result.success_message@ == toggle_message(
            old(liked_ids)@.contains(target.target_id()),
            target.kind_text(),
        ),
        result.error_message@ == "Not authenticated"@,
{
    let id = target.id();
    let kind = target.kind();
    let was_liked = liked_ids.contains(&id);
    if was_liked {
        liked_ids.remove(&id);
        let mut message = String::from_str("Removed from Liked ");
        let capital = capitalize(kind);
        message.append(capital.as_str());
        message.append("s");
        ToggleResult {
            is_liked: false,
            success_message: message,
            error_message: String::from_str("Not authenticated"),
        }
    } else {
        liked_ids.insert(id);
        let mut message = String::from_str("Added to Liked ");
        let capital = capitalize(kind);
        message.append(capital.as_str());
        message.append("s");
        ToggleResult {
            is_liked: true,
            success_message: message,
            error_message: String::from_str("Not authenticated"),
        }
    }
}

/// What to tell the user after a toggle.
#[derive(Clone, Copy, Debug, PartialEq, Eq, Structural)]
pub enum ToastKind {
    Success,
    Info,
    Error,
}

/// Chooses what to tell the user after a toggle: with a token the message
/// of success, as a success for a like and as a note for an unlike;
/// without a token the error.
pub fn toast_for(result: &ToggleResult, has_token: bool) -> (toast: (ToastKind, String))
    ensures
        toast.0 == (if !has_token {
            ToastKind::Error
        } else if result.is_liked {
            ToastKind::Success
        } else {
            ToastKind::Info
        }),
        toast.1@ == (if has_token {
            result.success_message@
        } else {
            result.error_message@
        }),
{
    if has_token {
        if result.is_liked {
            (ToastKind::Success, result.success_message.clone())
        } else {
            (ToastKind::Info, result.success_message.clone())
        }
    } else {
        (ToastKind::Error, result.error_message.clone())
    }
}

/// Toggling a like twice leaves the set of liked ids as it was.
pub proof fn lemma_toggle_twice_restores(liked: Set<u64>, id: u64)
    ensures
        toggled(toggled(liked, id), id) == liked,
        toggled(liked, id).contains(id) == !liked.contains(id),
        forall|other: u64| other != id ==> toggled(liked, id).contains(other) == liked.contains(other),
{
    assert(toggled(toggled(liked, id), id) =~= liked);
}

} // verus!
