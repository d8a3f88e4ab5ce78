//! Prefetch of the next track's media address, and what becomes of its
//! result.
//!
//! Once per track, while the current track is between 70% and 80% played,
//! the media address of the next track in the queue is resolved in the
//! background. The request carries the session of the moment; its result is
//! kept only if that session is still live when it arrives.

use vstd::prelude::*;
use crate::session::{PlaybackSession, SessionTagged};

verus! {

/// The start of the window of progress in which a prefetch begins, in
/// percent.
pub const PREFETCH_WINDOW_FROM_PERCENT: u64 = 70;

/// The end of the window, in percent.
pub const PREFETCH_WINDOW_TO_PERCENT: u64 = 80;

/// True if `position_ms` lies between 70% and 80% of `duration_ms`, both
/// ends included, for a track of a whole second at least.
pub open spec fn in_prefetch_window(position_ms: u64, duration_ms: u64) -> bool {
    &&& duration_ms >= 1000
    &&& 70 * duration_ms <= 100 * position_ms
    &&& 100 * position_ms <= 80 * duration_ms
}

/// Whether playback at `position_ms` of `duration_ms` is inside the window
/// in which a prefetch begins.
pub fn is_in_prefetch_window(position_ms: u64, duration_ms: u64) -> (inside: bool)
    ensures
        inside == in_prefetch_window(position_ms, duration_ms),
{
    if duration_ms < 1000 {
        return false;
    }
    let position: u128 = position_ms as u128;
    let duration: u128 = duration_ms as u128;
    let from: u128 = PREFETCH_WINDOW_FROM_PERCENT as u128;
    let to: u128 = PREFETCH_WINDOW_TO_PERCENT as u128;
    assert(from * duration == 70 * duration && to * duration == 80 * duration) by (nonlinear_arith)
        requires
            from == 70,
            to == 80,
    ;
    from * duration <= 100 * position && 100 * position <= to * duration
}

/// What the queue says of the track that comes next.
#[derive(Debug)]
pub struct NextTrack {
    pub id: u64,
    pub stream_url: Option<String>,
}

/// A prefetch to carry out in the background.
#[derive(Debug)]
pub struct PrefetchRequest {
    /// The session at the time of the request.
    pub session: u64,
    pub track_id: u64,
    pub stream_url: String,
    pub token: String,
}

/// A media address that was resolved ahead of time.
#[derive(Debug)]
pub struct PrefetchResult {
    pub track_id: u64,
    pub cdn_url: String,
}

/// What is known of prefetching for the current track.
#[derive(Debug)]
pub struct PrefetchState {
    /// True once a prefetch has been set off for the current track.
    pub triggered: bool,
    /// The media address that was resolved ahead of time.
    pub cdn_url: Option<String>,
    /// The track that `cdn_url` belongs to.
    pub for_track_id: Option<u64>,
    /// The wall-clock reading at which `cdn_url` arrived.
    pub fetched_at_ms: Option<u64>,
}

impl PrefetchState {
    /// True if a media address is at hand for the track `track_id`.
    pub open spec fn valid_for(&self, track_id: u64) -> bool {
        self.cdn_url is Some && self.for_track_id == Some(track_id)
    }

    /// True if the trigger looks at the next track at all: playback runs,
    /// no prefetch has been set off for this track, and the position is
    /// inside the window.
    pub open spec fn window_open(&self, is_playing: bool, position_ms: u64, duration_ms: u64) -> bool {
        is_playing && !self.triggered && in_prefetch_window(position_ms, duration_ms)
    }

    /// True if a prefetch begins: the window is open, and the next track
    /// has no valid media address at hand, has a stream address, and there
    /// is a token to ask with.
    pub open spec fn begins_prefetch(
        &self,
        is_playing: bool,
        position_ms: u64,
        duration_ms: u64,
        next: Option<NextTrack>,
        token: Option<String>,
    ) -> bool {
        &&& self.window_open(is_playing, position_ms, duration_ms)
        &&& next matches Some(track)
        &&& !self.valid_for(track.id)
        &&& track.stream_url is Some
        &&& token is Some
    }

    /// True if the trigger counts as used up afterwards: it was used up
    /// before, or the window is open and the next track lacks a valid media
    /// address.
    pub open spec fn triggered_after(
        &self,
        is_playing: bool,
        position_ms: u64,
        duration_ms: u64,
        next: Option<NextTrack>,
    ) -> bool {
        self.triggered || (self.window_open(is_playing, position_ms, duration_ms) && next is Some
            && !self.valid_for(next->0.id))
    }

    /// Nothing prefetched, nothing set off.
    pub fn new() -> (s: PrefetchState)
        ensures
            !s.triggered,
            s.cdn_url is None,
            s.for_track_id is None,
            s.fetched_at_ms is None,
    {
        PrefetchState { triggered: false, cdn_url: None, for_track_id: None, fetched_at_ms: None }
    }

    /// Whether a media address is at hand for the track `track_id`.
    pub fn has_valid_prefetch(&self, track_id: u64) -> (valid: bool)
        ensures
            valid == self.valid_for(track_id),
    {
        match self.for_track_id {
            Some(id) => id == track_id && self.cdn_url.is_some(),
            None => false,
        }
    }

    /// Lets the trigger fire again: at the start of a track and after a
    /// seek.
    pub fn reset_trigger(&mut self)
        ensures
            !final(self).triggered,
            final(self).cdn_url == old(self).cdn_url,
            final(self).for_track_id == old(self).for_track_id,
            final(self).fetched_at_ms == old(self).fetched_at_ms,
    {
        self.triggered = false;
    }

    /// Looks at the progress of the current track and sets off the prefetch
    /// of the next one when it is due. The request carries the live session.
    pub fn check_prefetch_trigger(
        &mut self,
        is_playing: bool,
        position_ms: u64,
        duration_ms: u64,
        next: Option<NextTrack>,
        token: Option<String>,
        session: &PlaybackSession,
    ) -> (request: Option<PrefetchRequest>)
        ensures
            request is Some <==> old(self).begins_prefetch(
                is_playing,
                position_ms,
                duration_ms,
                next,
                token,
            ),
            request matches Some(r) ==> {
                &&& r.session == session.value()
                &&& r.track_id == next->0.id
                &&& Some(r.stream_url) == next->0.stream_url
                &&& Some(r.token) == token
            },
            final(self).triggered == old(self).triggered_after(
                is_playing,
                position_ms,
                duration_ms,
                next,
            ),
            final(self).cdn_url == old(self).cdn_url,
            final(self).for_track_id == old(self).for_track_id,
            final(self).fetched_at_ms == old(self).fetched_at_ms,
    {
        if !is_playing || self.triggered {
            return None;
        }
        if !is_in_prefetch_window(position_ms, duration_ms) {
            return None;
        }
        let track = match next {
            Some(track) => track,
            None => {
                return None;
            },
        };
        if self.has_valid_prefetch(track.id) {
            return None;
        }
        self.triggered = true;
        let stream_url = match track.stream_url {
            Some(url) => url,
            None => {
                return None;
            },
        };
        let token = match token {
            Some(token) => token,
            None => {
                return None;
            },
        };
        Some(PrefetchRequest { session: session.current(), track_id: track.id, stream_url, token })
    }

    /// Takes in the result of a prefetch as it arrives at `now_ms`. The
    /// result is kept if its session is still the live one, and dropped
    /// otherwise. Returns whether it was kept.
    pub fn check_prefetch_updates(
        &mut self,
        session: &PlaybackSession,
        result: SessionTagged<PrefetchResult>,
        now_ms: u64,
    ) -> (kept: bool)
        ensures
            kept == (result.session == session.value()),
            kept ==> {
                &&& final(self).cdn_url == Some(result.value.cdn_url)
                &&& final(self).for_track_id == Some(result.value.track_id)
                &&& final(self).fetched_at_ms == Some(now_ms)
                &&& final(self).triggered == old(self).triggered
            },
            !kept ==> *final(self) == *old(self),
    {
        match session.accept(result) {
            Some(found) => {
                self.cdn_url = Some(found.cdn_url);
                self.for_track_id = Some(found.track_id);
                self.fetched_at_ms = Some(now_ms);
                true
            },
            None => false,
        }
    }

    /// The media address to start the track `track_id` from, if one was
    /// resolved ahead of time for it.
    pub fn prefetched_for(&self, track_id: u64) -> (url: Option<String>)
        ensures
            url == (if self.valid_for(track_id) {
                self.cdn_url
            } else {
                None
            }),
    {
        if self.has_valid_prefetch(track_id) {
            self.cdn_url.clone()
        } else {
            None
        }
    }
}

/// A prefetch never begins outside the window from 70% to 80%, and never
/// for a next track that has its media address at hand or lacks a stream
/// address.
pub proof fn lemma_prefetch_only_in_window(
    state: PrefetchState,
    is_playing: bool,
    position_ms: u64,
    duration_ms: u64,
    next: Option<NextTrack>,
    token: Option<String>,
)
    requires
        state.begins_prefetch(is_playing, position_ms, duration_ms, next, token),
    ensures
        7 * duration_ms <= 10 * position_ms <= 8 * duration_ms,
        is_playing,
        next is Some,
        !state.valid_for(next->0.id),
        next->0.stream_url is Some,
{
}

/// A prefetch begins once per track: when one has begun the trigger is
/// used up, and with the trigger used up none begins, wherever playback
/// stands and whatever comes next.
pub proof fn lemma_prefetch_begins_once(
    state: PrefetchState,
    is_playing: bool,
    position_ms: u64,
    duration_ms: u64,
    next: Option<NextTrack>,
    token: Option<String>,
    later_playing: bool,
    later_position_ms: u64,
    later_next: Option<NextTrack>,
    later_token: Option<String>,
)
    requires
        state.begins_prefetch(is_playing, position_ms, duration_ms, next, token),
    ensures
        !state.triggered,
        state.triggered_after(is_playing, position_ms, duration_ms, next),
        !(PrefetchState { triggered: true, ..state }).begins_prefetch(
            later_playing,
            later_position_ms,
            duration_ms,
            later_next,
            later_token,
        ),
{
}

/// A prefetch result that arrives after any transport changes, fewer than
/// the counter has values, is dropped.
pub proof fn lemma_stale_prefetch_is_dropped(
    tag: u64,
    changes: Seq<crate::session::TransportChange>,
    result: PrefetchResult,
)
    requires
        0 < changes.len() < crate::session::session_modulus(),
    ensures
        crate::session::delivered(crate::session::session_after(tag, changes), tag, result)
            is None,
{
    crate::session::lemma_stale_result_is_discarded(tag, changes, result);
}

} // verus!
