//! The content of the home screen.

use vstd::prelude::*;
use crate::models::Track;

verus! {

/// The sections of the home screen.
#[derive(Debug, Clone)]
pub struct HomeContent {
    pub recently_played: Vec<Track>,
    pub recommendations: Vec<Track>,
    pub initial_fetch_done: bool,
}

impl HomeContent {
    /// Empty sections, the first fetch still to come.
    pub fn new() -> (h: HomeContent)
        ensures
            h.recently_played@.len() == 0,
            h.recommendations@.len() == 0,
            !h.initial_fetch_done,
    {
        HomeContent {
            recently_played: Vec::new(),
            recommendations: Vec::new(),
            initial_fetch_done: false,
        }
    }

    /// Whether the first fetch is done, even if it brought nothing.
    pub fn has_content(&self) -> (b: bool)
        ensures
            b == self.initial_fetch_done,
    {
        self.initial_fetch_done
    }

    /// Empties both sections. Whether the first fetch is done stays as it
    /// is.
    pub fn clear(&mut self)
        ensures
            final(self).recently_played@.len() == 0,
            final(self).recommendations@.len() == 0,
            final(self).initial_fetch_done == old(self).initial_fetch_done,
    {
        self.recently_played.clear();
        self.recommendations.clear();
    }
}

impl Default for HomeContent {
    fn default() -> (h: HomeContent)
        ensures
            h.recently_played@.len() == 0,
            h.recommendations@.len() == 0,
            !h.initial_fetch_done,
    {
        HomeContent::new()
    }
}

} // verus!
