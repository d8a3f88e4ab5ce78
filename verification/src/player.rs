//! The player session: the bookkeeping of the track that is loaded.
//!
//! The session owns the playback clock, the total duration and the volume.
//! What it learns of the audio output (whether it has run dry) and of the
//! pipeline (whether it has finished) comes in as arguments.

use vstd::prelude::*;
use crate::clock::{PlaybackClock, remaining_ms, END_SLACK_MS};
use crate::retry::{RetryPolicy, RetryStep};
use crate::volume::Volume;

verus! {

/// The byte rate that a seek assumes: 128 kbit/s.
pub const SEEK_BYTES_PER_SECOND: u64 = 16_000;

/// The longest that the teardown of an old pipeline thread is waited for.
pub const CLEANUP_WAIT_CAP_MS: u64 = 2000;

/// The pause between two looks at an old pipeline thread during teardown.
pub const CLEANUP_POLL_MS: u64 = 50;

/// The byte offset that a seek to `position_ms` asks the server for: whole
/// seconds times the assumed byte rate.
pub open spec fn seek_byte_offset(position_ms: u64) -> nat {
    ((position_ms / 1000) * 16_000) as nat
}

/// The stage that a session is in.
#[derive(Clone, Copy, Debug, PartialEq, Eq, Structural)]
pub enum PlayerState {
    Buffering,
    Playing,
    Paused,
    Finished,
    Stopped,
}

/// Where a seek goes: the position to show and the byte to fetch from.
#[derive(Clone, Copy, Debug, PartialEq, Eq, Structural)]
pub struct SeekPlan {
    pub target_ms: u64,
    pub byte_offset: u64,
}

/// Why one attempt of a seek failed.
#[derive(Clone, Copy, Debug, PartialEq, Eq, Structural)]
pub enum SeekFailure {
    /// The request did not get through.
    Transport,
    /// The answer named no redirect target.
    NoLocation,
}

/// A seek that has used up its attempts. Playback is lost: the old output
/// was given up when the seek began.
#[derive(Clone, Copy, Debug, PartialEq, Eq, Structural)]
pub struct SeekError {
    /// The failure of the last attempt.
    pub last_failure: SeekFailure,
    pub attempts: u32,
}

/// What follows a failed attempt of a seek.
#[derive(Clone, Copy, Debug, PartialEq, Eq, Structural)]
pub enum SeekStep {
    RetryAfter { wait_ms: u64, next_attempt: u32 },
    Failed(SeekError),
}

/// The session of the track that is loaded.
#[derive(Debug)]
pub struct AudioPlayer {
    pub track_id: u64,
    pub total_duration_ms: Option<u64>,
    pub clock: PlaybackClock,
    pub current_url: String,
    pub current_token: String,
    pub current_volume: Volume,
    pub is_history_track: bool,
    /// Set once the pipeline of this session has been told to stop.
    pub shutdown: bool,
}

impl AudioPlayer {
    /// The position that the session reports at `now`.
    pub open spec fn position_at(&self, now: u64, sink_empty: bool) -> u64 {
        self.clock.position_at(now, self.total_duration_ms, sink_empty)
    }

    /// True while playback is paused.
    pub open spec fn is_paused(&self) -> bool {
        self.clock.is_paused()
    }

    /// Whether the track counts as finished at `now`: not paused, the output
    /// run dry, and either the pipeline has said that it is done, or at most
    /// `END_SLACK_MS` are left, or the duration is not known.
    pub open spec fn finished_at(&self, now: u64, sink_empty: bool, finished_flag: bool) -> bool {
        &&& !self.is_paused()
        &&& sink_empty
        &&& (finished_flag || match self.total_duration_ms {
            Some(t) => remaining_ms(t, self.position_at(now, sink_empty)) <= END_SLACK_MS,
            None => true,
        })
    }

    /// The stage of the session at `now`. `buffered` says whether the first
    /// two seconds of audio have been received.
    pub open spec fn state_at(
        &self,
        now: u64,
        sink_empty: bool,
        finished_flag: bool,
        buffered: bool,
    ) -> PlayerState {
        if self.shutdown {
            PlayerState::Stopped
        } else if self.is_paused() {
            PlayerState::Paused
        } else if self.finished_at(now, sink_empty, finished_flag) {
            PlayerState::Finished
        } else if !buffered {
            PlayerState::Buffering
        } else {
            PlayerState::Playing
        }
    }

    /// The session after a pause at `now`.
    pub open spec fn paused(self, now: u64, sink_empty: bool) -> AudioPlayer {
        AudioPlayer { clock: self.clock.paused(now, self.total_duration_ms, sink_empty), ..self }
    }

    /// The session after a resume at `now`.
    pub open spec fn resumed(self, now: u64) -> AudioPlayer {
        AudioPlayer { clock: self.clock.resumed(now), ..self }
    }

    /// The session with its pipeline told to stop.
    pub open spec fn stopped(self) -> AudioPlayer {
        AudioPlayer { shutdown: true, ..self }
    }

    /// The session at another volume.
    pub open spec fn with_volume(self, volume: Volume) -> AudioPlayer {
        AudioPlayer { current_volume: volume, ..self }
    }

    /// The session after a seek has connected at `now`.
    pub open spec fn sought(self, plan: SeekPlan, now: u64) -> AudioPlayer {
        AudioPlayer {
            clock: PlaybackClock::started_at(plan.target_ms, now),
            shutdown: false,
            ..self
        }
    }

    /// The session of a track whose playback starts at `now`.
    pub open spec fn fresh(
        url: String,
        token: String,
        track_id: u64,
        duration_ms: u64,
        is_history_track: bool,
        now: u64,
        volume: Volume,
    ) -> AudioPlayer {
        AudioPlayer {
            track_id,
            total_duration_ms: if duration_ms > 0 {
                Some(duration_ms)
            } else {
                None
            },
            clock: PlaybackClock::started_at(0, now),
            current_url: url,
            current_token: token,
            current_volume: volume,
            is_history_track,
            shutdown: false,
        }
    }

    /// The session of a track whose playback starts at `now_ms`: at position
    /// zero, at full volume, not paused. A duration of zero means that the
    /// duration is not known.
    pub fn new_and_play_cached(
        url: String,
        token: String,
        track_id: u64,
        duration_ms: u64,
        is_history_track: bool,
        now_ms: u64,
    ) -> (p: AudioPlayer)
        ensures
            p.current_volume@ == 1000,
            p == Self::fresh(url, token, track_id, duration_ms, is_history_track, now_ms, p.current_volume),
    {
        let total = if duration_ms > 0 {
            Some(duration_ms)
        } else {
            None
        };
        AudioPlayer {
            track_id,
            total_duration_ms: total,
            clock: PlaybackClock::start(0, now_ms),
            current_url: url,
            current_token: token,
            current_volume: Volume::full(),
            is_history_track,
            shutdown: false,
        }
    }

    /// Pauses at the current position. Returns true if the output is to be
    /// paused, false if playback was paused already.
    pub fn pause(&mut self, now_ms: u64, sink_empty: bool) -> (changed: bool)
        ensures
            *final(self) == old(self).paused(now_ms, sink_empty),
            changed == !old(self).is_paused(),
    {
        let total = self.total_duration_ms;
        self.clock.pause(now_ms, total, sink_empty)
    }

    /// Resumes from the paused position, with `now_ms` as the new wall-clock
    /// origin. Returns true if the output is to play on, false if playback
    /// was not paused.
    pub fn resume(&mut self, now_ms: u64) -> (changed: bool)
        ensures
            *final(self) == old(self).resumed(now_ms),
            changed == old(self).is_paused(),
    {
        self.clock.resume(now_ms)
    }

    /// Tells the pipeline of this session to stop. The output is stopped by
    /// the caller, and the pipeline thread is joined apart from it.
    pub fn stop(&mut self)
        ensures
            *final(self) == old(self).stopped(),
    {
        self.shutdown = true;
    }

    pub fn set_volume(&mut self, volume: Volume)
        ensures
            *final(self) == old(self).with_volume(volume),
    {
        self.current_volume = volume;
    }

    /// Whether the track has finished playing. `sink_empty` is what the
    /// audio output reports, `finished_flag` what the pipeline has set.
    pub fn is_finished(&self, now_ms: u64, sink_empty: bool, finished_flag: bool) -> (done: bool)
        ensures
            done == self.finished_at(now_ms, sink_empty, finished_flag),
    {
        if self.clock.paused_at_ms.is_some() {
            return false;
        }
        if !sink_empty {
            return false;
        }
        if finished_flag {
            return true;
        }
        match self.total_duration_ms {
            Some(total) => {
                let position = self.get_position(now_ms, sink_empty);
                total.saturating_sub(position) <= END_SLACK_MS
            },
            None => true,
        }
    }

    pub fn get_duration(&self) -> (d: Option<u64>)
        ensures
            d == self.total_duration_ms,
    {
        self.total_duration_ms
    }

    /// The current position, in milliseconds.
    pub fn get_position(&self, now_ms: u64, sink_empty: bool) -> (p: u64)
        ensures
            p == self.position_at(now_ms, sink_empty),
    {
        self.clock.position(now_ms, self.total_duration_ms, sink_empty)
    }

    /// The stage of the session.
    pub fn state(&self, now_ms: u64, sink_empty: bool, finished_flag: bool, buffered: bool) -> (s:
        PlayerState)
        ensures
            s == self.state_at(now_ms, sink_empty, finished_flag, buffered),
    {
        if self.shutdown {
            PlayerState::Stopped
        } else if self.clock.paused_at_ms.is_some() {
            PlayerState::Paused
        } else if self.is_finished(now_ms, sink_empty, finished_flag) {
            PlayerState::Finished
        } else if !buffered {
            PlayerState::Buffering
        } else {
            PlayerState::Playing
        }
    }

    /// Begins a seek to `position_ms`: the pipeline of the session is told
    /// to stop, and the plan says from which byte the new one fetches. The
    /// clock keeps running as it was until the seek has connected.
    pub fn seek(&mut self, position_ms: u64) -> (plan: SeekPlan)
        requires
            seek_byte_offset(position_ms) <= u64::MAX,
        ensures
            plan.target_ms == position_ms,
            plan.byte_offset == seek_byte_offset(position_ms),
            *final(self) == old(self).stopped(),
    {
        self.shutdown = true;
        let seconds = position_ms / 1000;
        SeekPlan { target_ms: position_ms, byte_offset: seconds * SEEK_BYTES_PER_SECOND }
    }

    /// Ends a seek whose new stream is open: there is a new pipeline, not
    /// told to stop, and the clock runs from the target position as of
    /// `now_ms`, not paused. Returns the volume to carry over to the new
    /// output.
    pub fn seek_connected(&mut self, plan: SeekPlan, now_ms: u64) -> (volume: Volume)
        ensures
            *final(self) == old(self).sought(plan, now_ms),
            volume == old(self).current_volume,
    {
        self.shutdown = false;
        self.clock = PlaybackClock::start(plan.target_ms, now_ms);
        self.current_volume
    }
}

/// What follows attempt number `attempt` of a seek that failed with
/// `failure`: up to three attempts, the wait growing with each.
pub open spec fn seek_step_after(attempt: u32, failure: SeekFailure) -> SeekStep {
    if attempt < 3 {
        SeekStep::RetryAfter { wait_ms: (500 * attempt) as u64, next_attempt: (attempt + 1) as u32 }
    } else {
        SeekStep::Failed(SeekError { last_failure: failure, attempts: attempt })
    }
}

/// Decides what follows a failed attempt of a seek. Attempts are numbered
/// from 1.
pub fn seek_attempt_failed(attempt: u32, failure: SeekFailure) -> (step: SeekStep)
    ensures
        step == seek_step_after(attempt, failure),
{
    match RetryPolicy::connect().after_failure(attempt) {
        RetryStep::RetryAfter { wait_ms, next_attempt } => {
            assert(wait_ms == 500 * attempt) by (nonlinear_arith)
                requires
                    wait_ms == (500 as nat) * (attempt as nat),
            ;
            SeekStep::RetryAfter { wait_ms, next_attempt }
        },
        RetryStep::GiveUp => SeekStep::Failed(SeekError { last_failure: failure, attempts: attempt }),
    }
}

/// The byte offset of a seek to `position_ms`, if it can be written in 64
/// bits.
pub fn checked_seek_byte_offset(position_ms: u64) -> (offset: Option<u64>)
    ensures
        offset == (if seek_byte_offset(position_ms) <= u64::MAX {
            Some(seek_byte_offset(position_ms) as u64)
        } else {
            None
        }),
{
    (position_ms / 1000).checked_mul(SEEK_BYTES_PER_SECOND)
}

/// Whether the teardown of an old pipeline thread goes on waiting for it:
/// as long as it runs and the cap has not been reached.
pub fn cleanup_keeps_waiting(thread_finished: bool, waited_ms: u64) -> (wait: bool)
    ensures
        wait == (!thread_finished && waited_ms < CLEANUP_WAIT_CAP_MS),
{
    !thread_finished && waited_ms < CLEANUP_WAIT_CAP_MS
}

} // verus!
