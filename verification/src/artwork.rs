//! The addresses of pictures in the size that the screens show.

use vstd::prelude::*;
use crate::text::{contains_text, str_contains, str_replace, str_replaced};

verus! {

/// The address of the large form of the artwork at `url`.
pub open spec fn large_artwork(url: Seq<char>) -> Seq<char> {
    str_replaced(url, "-large.jpg"@, "-t500x500.jpg"@)
}

/// The address of the large form of the avatar at `url`: the one that is
/// marked large is exchanged for it, the one that is it already stays, and
/// to any other the mark of the large form is added before its ending.
pub open spec fn large_avatar(url: Seq<char>) -> Seq<char> {
    if contains_text(url, "-large.jpg"@) {
        str_replaced(url, "-large.jpg"@, "-t500x500.jpg"@)
    } else if contains_text(url, "-t500x500.jpg"@) {
        url
    } else {
        str_replaced(url, ".jpg"@, "-t500x500.jpg"@)
    }
}

/// The address to load the artwork of a track or playlist from; empty if
/// it has none.
pub fn large_artwork_url(artwork_url: &Option<String>) -> (url: String)
    ensures
        url@ == (match artwork_url {
            Some(found) => large_artwork(found@),
            None => Seq::empty(),
        }),
{
    match artwork_url {
        Some(found) => str_replace(found.as_str(), "-large.jpg", "-t500x500.jpg"),
        None => String::new(),
    }
}

/// The address to load the user's avatar from.
pub fn large_avatar_url(avatar_url: &str) -> (url: String)
    ensures
        url@ == large_avatar(avatar_url@),
{
    if str_contains(avatar_url, "-large.jpg") {
        str_replace(avatar_url, "-large.jpg", "-t500x500.jpg")
    } else if str_contains(avatar_url, "-t500x500.jpg") {
        avatar_url.to_owned()
    } else {
        str_replace(avatar_url, ".jpg", "-t500x500.jpg")
    }
}

} // verus!
