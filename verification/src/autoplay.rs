//! What plays when a track has come to its end.

use vstd::prelude::*;
use rand::Rng;
use crate::audio_state::{AudioState, RepeatMode, MIN_TRACK_ELAPSED_MS};
use crate::clock::elapsed_ms;
use crate::controller::AudioCommand;

verus! {

/// Where the queue stands.
#[derive(Clone, Copy, Debug, PartialEq, Eq, Structural)]
pub struct QueuePosition {
    /// The place of the current track in the queue.
    pub current_index: Option<usize>,
    /// The number of tracks in the queue.
    pub len: usize,
    /// The id of the first track of the queue as it was loaded.
    pub first_track_id: Option<u64>,
}

/// What follows the end of a track.
#[derive(Clone, Copy, Debug, PartialEq, Eq, Structural)]
pub enum FinishedStep {
    /// The track has not finished, or its end has been dealt with.
    Nothing,
    /// Play the track with this id again.
    Replay(u64),
    /// Go back to the first track of the queue, which has this id.
    LoopToFirst(u64),
    /// Play the next track of the queue.
    PlayNext,
    /// A fetch of the track to play next is under way: wait for it.
    WaitForFetch,
    /// The only track of the queue has finished: look for another one in
    /// the history, leaving out the track with this id.
    PickFromHistory(u64),
    /// Stop playback.
    Stop,
}

/// What follows the end of the only track of the queue.
#[derive(Clone, Copy, Debug, PartialEq, Eq, Structural)]
pub enum SingleTrackNext {
    /// Fetch and play the track with this id, which the history holds.
    FromHistory(u64),
    /// Play the first of the suggestions.
    FirstSuggestion,
    /// Stop playback.
    Stop,
}

impl QueuePosition {
    /// True if the current track is the last of the queue, or there is no
    /// current track.
    pub open spec fn at_end(&self) -> bool {
        match self.current_index {
            Some(index) => index + 1 >= self.len,
            None => true,
        }
    }

    /// True if a track follows the current one.
    pub open spec fn has_next(&self) -> bool {
        match self.current_index {
            Some(index) => index + 1 < self.len,
            None => false,
        }
    }
}

impl AudioState {
    /// True if the end of the current track is to be dealt with now: it
    /// plays, the controller says that it has finished, its end has not
    /// been dealt with, and its audio started a second ago at least.
    pub open spec fn end_is_due(&self, controller_finished: bool, now: u64) -> bool {
        &&& self.is_playing
        &&& controller_finished
        &&& !self.track_finished_handled
        &&& self.current_track_id is Some
        &&& self.track_start_ms matches Some(start) && elapsed_ms(start, now)
            >= MIN_TRACK_ELAPSED_MS
    }

    /// What follows the end of the current track, when it is due.
    pub open spec fn step_at_end(&self, queue: QueuePosition, fetch_in_progress: bool) -> FinishedStep {
        match self.repeat_mode {
            RepeatMode::One => FinishedStep::Replay(self.current_track_id->0),
            RepeatMode::All => if queue.at_end() {
                match queue.first_track_id {
                    Some(first) => FinishedStep::LoopToFirst(first),
                    None => FinishedStep::Nothing,
                }
            } else {
                FinishedStep::PlayNext
            },
            RepeatMode::Off => if queue.has_next() {
                FinishedStep::PlayNext
            } else if queue.len == 1 {
                if fetch_in_progress {
                    FinishedStep::WaitForFetch
                } else {
                    FinishedStep::PickFromHistory(self.current_track_id->0)
                }
            } else {
                FinishedStep::Stop
            },
        }
    }

    /// Looks whether the current track has finished and decides what
    /// plays next. The end of a track is dealt with once. At a stop
    /// playback is marked as not running and the start of the track is
    /// forgotten.
    pub fn check_track_finished(
        &mut self,
        controller_finished: bool,
        now_ms: u64,
        queue: QueuePosition,
        fetch_in_progress: bool,
    ) -> (step: FinishedStep)
        ensures
            step == (if old(self).end_is_due(controller_finished, now_ms) {
                old(self).step_at_end(queue, fetch_in_progress)
            } else {
                FinishedStep::Nothing
            }),
            final(self).track_finished_handled == (old(self).track_finished_handled || old(
                self,
            ).end_is_due(controller_finished, now_ms)),
            final(self).is_playing == (old(self).is_playing && !(step == FinishedStep::Stop)),
            final(self).track_start_ms == (if step == FinishedStep::Stop {
                None
            } else {
                old(self).track_start_ms
            }),
            final(self).same_track(old(self)),
            final(self).same_settings(old(self)),
            final(self).playback_session == old(self).playback_session,
            final(self).prefetch == old(self).prefetch,
    {
        if !(self.is_playing && controller_finished) {
            return FinishedStep::Nothing;
        }
        if self.track_finished_handled {
            return FinishedStep::Nothing;
        }
        let track_id = match self.current_track_id {
            Some(id) => id,
            None => {
                return FinishedStep::Nothing;
            },
        };
        match self.track_start_ms {
            Some(start) => {
                if now_ms.saturating_sub(start) < MIN_TRACK_ELAPSED_MS {
                    return FinishedStep::Nothing;
                }
            },
            None => {
                return FinishedStep::Nothing;
            },
        }
        self.track_finished_handled = true;
        match self.repeat_mode {
            RepeatMode::One => FinishedStep::Replay(track_id),
            RepeatMode::All => {
                let at_end = match queue.current_index {
                    Some(index) => index >= queue.len || index + 1 >= queue.len,
                    None => true,
                };
                if at_end {
                    match queue.first_track_id {
                        Some(first) => FinishedStep::LoopToFirst(first),
                        None => FinishedStep::Nothing,
                    }
                } else {
                    FinishedStep::PlayNext
                }
            },
            RepeatMode::Off => {
                let has_next = match queue.current_index {
                    Some(index) => index < queue.len && index + 1 < queue.len,
                    None => false,
                };
                if has_next {
                    FinishedStep::PlayNext
                } else if queue.len == 1 {
                    if fetch_in_progress {
                        FinishedStep::WaitForFetch
                    } else {
                        FinishedStep::PickFromHistory(track_id)
                    }
                } else {
                    self.stop_at_end();
                    FinishedStep::Stop
                }
            },
        }
    }

    /// Marks playback as over at the end of the queue. Returns the command
    /// for the controller. The session stays as it is.
    pub fn stop_at_end(&mut self) -> (command: AudioCommand)
        ensures
            command == AudioCommand::Stop,
            !final(self).is_playing,
            final(self).track_start_ms is None,
            final(self).track_finished_handled == old(self).track_finished_handled,
            final(self).same_track(old(self)),
            final(self).same_settings(old(self)),
            final(self).playback_session == old(self).playback_session,
            final(self).prefetch == old(self).prefetch,
    {
        self.is_playing = false;
        self.track_start_ms = None;
        AudioCommand::Stop
    }
}

/// The ids among `recent` that are not `current`, in their order.
pub open spec fn candidates_of(recent: Seq<u64>, current: u64) -> Seq<u64> {
    recent.filter(other_than(current))
}

/// The test that holds of every id but `current`.
pub open spec fn other_than(current: u64) -> spec_fn(u64) -> bool {
    |id: u64| id != current
}

/// `rand::Rng::random_range` over `0..len` on the thread's generator. The
/// claim: the number lies in the range. Which one it is differs from call
/// to call.
#[verifier::external_body]
fn random_index(len: usize) -> (index: usize)
    requires
        len > 0,
    ensures
        index < len,
{
    rand::rng().random_range(0..len)
}

/// The tracks of the history that can follow the track `current`: all but
/// that track itself.
pub fn history_candidates(recent: &Vec<u64>, current: u64) -> (candidates: Vec<u64>)
    ensures
        candidates@ == candidates_of(recent@, current),
{
    let ghost pred = other_than(current);
    let mut candidates: Vec<u64> = Vec::new();
    let mut i: usize = 0;
    proof {
        reveal(Seq::filter);
        assert(recent@.take(0) =~= Seq::<u64>::empty());
    }
    while i < recent.len()
        invariant
            i <= recent@.len(),
            forall|id: u64| #[trigger] pred(id) == (id != current),
            candidates@ == recent@.take(i as int).filter(pred),
        decreases recent@.len() - i,
    {
        proof {
            crate::sequences::lemma_filter_one_more(recent@, i as int, pred);
        }
        if recent[i] != current {
            candidates.push(recent[i]);
        }
        i = i + 1;
    }
    proof {
        assert(recent@.take(recent@.len() as int) =~= recent@);
    }
    candidates
}

/// What follows when the candidate at `index` has been drawn from
/// `candidates`, the tracks of the history that can follow.
pub fn next_after_single_track(candidates: &Vec<u64>, index: usize, has_suggestions: bool) -> (next:
    SingleTrackNext)
    requires
        candidates@.len() > 0 ==> index < candidates@.len(),
    ensures
        next == (if candidates@.len() > 0 {
            SingleTrackNext::FromHistory(candidates@[index as int])
        } else if has_suggestions {
            SingleTrackNext::FirstSuggestion
        } else {
            SingleTrackNext::Stop
        }),
{
    if candidates.len() > 0 {
        SingleTrackNext::FromHistory(candidates[index])
    } else if has_suggestions {
        SingleTrackNext::FirstSuggestion
    } else {
        SingleTrackNext::Stop
    }
}

/// Chooses what follows the only track of the queue: a track of the
/// history other than `current`, drawn at random; without one, the first
/// suggestion; without suggestions, nothing.
pub fn choose_after_single_track(recent: &Vec<u64>, current: u64, has_suggestions: bool) -> (next:
    SingleTrackNext)
    ensures
        match next {
            SingleTrackNext::FromHistory(id) => candidates_of(recent@, current).contains(id)
                && id != current && recent@.contains(id),
            SingleTrackNext::FirstSuggestion => candidates_of(recent@, current).len() == 0
                && has_suggestions,
            SingleTrackNext::Stop => candidates_of(recent@, current).len() == 0
                && !has_suggestions,
        },
{
    let candidates = history_candidates(recent, current);
    let index = if candidates.len() > 0 {
        random_index(candidates.len())
    } else {
        0
    };
    proof {
        if candidates@.len() > 0 {
            let pred = other_than(current);
            recent@.lemma_filter_pred(pred, index as int);
            recent@.lemma_filter_contains_rev(pred, candidates@[index as int]);
        }
    }
    next_after_single_track(&candidates, index, has_suggestions)
}

} // verus!
