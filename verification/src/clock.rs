//! The playback clock: position by wall-clock extrapolation.
//!
//! All times are whole milliseconds. Wall-clock readings come from one
//! monotonic clock, as milliseconds since an origin that the caller picks.

use vstd::prelude::*;

verus! {

/// Near the end of a track, this much remaining time or less counts as the
/// end once the output has run dry.
pub const END_SLACK_MS: u64 = 2000;

/// Wall-clock time passed from `start` to `now`; none if `now` is earlier.
pub open spec fn elapsed_ms(start: u64, now: u64) -> nat {
    if now >= start {
        (now - start) as nat
    } else {
        0
    }
}

/// `position` moved on by `elapsed`, held at the largest time there is.
pub open spec fn advanced_ms(position: u64, elapsed: nat) -> u64 {
    if position + elapsed > u64::MAX {
        u64::MAX
    } else {
        (position + elapsed) as u64
    }
}

/// What is left of `total` at `position`; nothing at or past the end.
pub open spec fn remaining_ms(total: u64, position: u64) -> nat {
    if total >= position {
        (total - position) as nat
    } else {
        0
    }
}

/// The extrapolated position `raw`, limited to the total duration once the
/// output reports empty with at most `END_SLACK_MS` left.
pub open spec fn clamped_at_end(raw: u64, total: Option<u64>, sink_empty: bool) -> u64 {
    match total {
        Some(t) => if sink_empty && remaining_ms(t, raw) <= END_SLACK_MS {
            if raw > t {
                t
            } else {
                raw
            }
        } else {
            raw
        },
        None => raw,
    }
}

/// Where playback started, when, and where it was paused.
#[derive(Clone, Copy, Debug)]
pub struct PlaybackClock {
    /// Wall-clock reading at which `start_position_ms` was current.
    pub start_wall_ms: u64,
    /// Position at `start_wall_ms`.
    pub start_position_ms: u64,
    /// The position at which playback is paused, if it is.
    pub paused_at_ms: Option<u64>,
}

impl PlaybackClock {
    pub open spec fn is_paused(&self) -> bool {
        self.paused_at_ms is Some
    }

    /// The position that the clock reports at `now`: the paused position
    /// while paused, else the start position plus the time since the start,
    /// limited at the end of the track.
    pub open spec fn position_at(&self, now: u64, total: Option<u64>, sink_empty: bool) -> u64 {
        match self.paused_at_ms {
            Some(p) => p,
            None => clamped_at_end(
                advanced_ms(self.start_position_ms, elapsed_ms(self.start_wall_ms, now)),
                total,
                sink_empty,
            ),
        }
    }

    /// The clock after a pause at `now`.
    pub open spec fn paused(&self, now: u64, total: Option<u64>, sink_empty: bool) -> PlaybackClock {
        if self.is_paused() {
            *self
        } else {
            PlaybackClock {
                start_wall_ms: self.start_wall_ms,
                start_position_ms: self.start_position_ms,
                paused_at_ms: Some(self.position_at(now, total, sink_empty)),
            }
        }
    }

    /// The clock after a resume at `now`.
    pub open spec fn resumed(&self, now: u64) -> PlaybackClock {
        match self.paused_at_ms {
            Some(p) => PlaybackClock {
                start_wall_ms: now,
                start_position_ms: p,
                paused_at_ms: None,
            },
            None => *self,
        }
    }

    /// A clock that runs from `position` at `now`.
    pub open spec fn started_at(position: u64, now: u64) -> PlaybackClock {
        PlaybackClock { start_wall_ms: now, start_position_ms: position, paused_at_ms: None }
    }

    /// Starts the clock at `position_ms`, read at wall-clock time `now_ms`.
    pub fn start(position_ms: u64, now_ms: u64) -> (c: PlaybackClock)
        ensures
            c == Self::started_at(position_ms, now_ms),
    {
        PlaybackClock { start_wall_ms: now_ms, start_position_ms: position_ms, paused_at_ms: None }
    }

    /// The current position, in milliseconds.
    pub fn position(&self, now_ms: u64, total_ms: Option<u64>, sink_empty: bool) -> (p: u64)
        ensures
            p == self.position_at(now_ms, total_ms, sink_empty),
    {
        match self.paused_at_ms {
            Some(p) => p,
            None => {
                let elapsed = now_ms.saturating_sub(self.start_wall_ms);
                let raw = self.start_position_ms.saturating_add(elapsed);
                match total_ms {
                    Some(t) => {
                        if sink_empty && t.saturating_sub(raw) <= END_SLACK_MS {
                            if raw > t {
                                t
                            } else {
                                raw
                            }
                        } else {
                            raw
                        }
                    },
                    None => raw,
                }
            },
        }
    }

    /// Freezes the clock at the current position. Returns false, and changes
    /// nothing, if it is frozen already.
    pub fn pause(&mut self, now_ms: u64, total_ms: Option<u64>, sink_empty: bool) -> (changed: bool)
        ensures
            *final(self) == old(self).paused(now_ms, total_ms, sink_empty),
            changed == !old(self).is_paused(),
    {
        if self.paused_at_ms.is_some() {
            false
        } else {
            let p = self.position(now_ms, total_ms, sink_empty);
            self.paused_at_ms = Some(p);
            true
        }
    }

    /// Lets the clock run on from the paused position, with `now_ms` as the
    /// new wall-clock origin. Returns false, and changes nothing, if it is
    /// not paused.
    pub fn resume(&mut self, now_ms: u64) -> (changed: bool)
        ensures
            *final(self) == old(self).resumed(now_ms),
            changed == old(self).is_paused(),
    {
        match self.paused_at_ms {
            Some(p) => {
                self.start_position_ms = p;
                self.start_wall_ms = now_ms;
                self.paused_at_ms = None;
                true
            },
            None => false,
        }
    }
}

/// The position reported right after a resume is the position at which
/// playback was paused, however long the pause lasted. The one exception is
/// left out: a position past the end of the track, taken while the output
/// still had samples, is limited to the end if the output is empty at the
/// resume.
pub proof fn lemma_resume_keeps_paused_position(
    clock: PlaybackClock,
    pause_at: u64,
    delay: u64,
    total: Option<u64>,
    empty_at_pause: bool,
    empty_at_resume: bool,
)
    requires
        !clock.is_paused(),
        pause_at + delay <= u64::MAX,
        !(empty_at_resume && !empty_at_pause && total is Some && clock.position_at(
            pause_at,
            total,
            empty_at_pause,
        ) > total->0),
    ensures
        clock.paused(pause_at, total, empty_at_pause).resumed(
            (pause_at + delay) as u64,
        ).position_at((pause_at + delay) as u64, total, empty_at_resume) == clock.position_at(
            pause_at,
            total,
            empty_at_pause,
        ),
{
}

/// While the clock is paused its position stands still.
pub proof fn lemma_paused_position_is_frozen(
    clock: PlaybackClock,
    now: u64,
    later: u64,
    total: Option<u64>,
    sink_empty: bool,
    sink_empty_later: bool,
)
    requires
        clock.is_paused(),
    ensures
        clock.position_at(now, total, sink_empty) == clock.position_at(
            later,
            total,
            sink_empty_later,
        ),
{
}

/// Without a pause the position after `elapsed` milliseconds of a track that
/// is longer than that is the start position plus `elapsed`.
pub proof fn lemma_running_position(start: u64, position: u64, elapsed: u64, total: u64, sink_empty: bool)
    requires
        start + elapsed <= u64::MAX,
        position + elapsed <= total,
    ensures
        PlaybackClock::started_at(position, start).position_at(
            (start + elapsed) as u64,
            Some(total),
            sink_empty,
        ) == position + elapsed,
{
}

} // verus!
