//! The controller: one command at a time against the player session.
//!
//! The controller's worker owns this state. It applies the commands in the
//! order in which they were sent, carries out the action that each one asks
//! of the audio output, and publishes position and finished state for the
//! caller to poll.

use vstd::prelude::*;
use crate::player::{AudioPlayer, SeekPlan, seek_byte_offset};
use crate::volume::Volume;

verus! {

/// The pause between two rounds of the worker.
pub const POLL_INTERVAL_MS: u64 = 50;

/// A command to the controller.
#[derive(Debug)]
pub enum AudioCommand {
    Play {
        url: String,
        token: String,
        track_id: u64,
        duration_ms: u64,
        is_history_track: bool,
        prefetched_cdn_url: Option<String>,
    },
    Pause,
    Resume,
    Stop,
    /// The volume asked for, in thousandths of full scale.
    SetVolume(i64),
    /// The position to go to, in milliseconds.
    Seek(u64),
}

/// What the worker does to the audio output and the pipeline after a
/// command has been applied.
#[derive(Debug)]
pub enum ControllerAction {
    /// Nothing to do.
    Idle,
    /// Tear down the previous session, if there was one, then open the
    /// output and the pipeline of a new one. On success the worker reports
    /// the session with `session_started`.
    StartSession {
        stop_previous: bool,
        url: String,
        token: String,
        track_id: u64,
        duration_ms: u64,
        is_history_track: bool,
        prefetched_cdn_url: Option<String>,
    },
    PauseOutput,
    ResumeOutput,
    /// Stop the output and tear down the session.
    StopSession,
    SetOutputVolume(Volume),
    /// Stop the output and the old pipeline, then fetch from the plan's
    /// byte offset. On success the worker reports with `seek_connected`.
    SeekSession { plan: SeekPlan, url: String, token: String },
}

/// The state of the controller's worker.
#[derive(Debug)]
pub struct AudioController {
    /// The active session. There is never more than one.
    pub player: Option<AudioPlayer>,
    /// The volume that the next session starts with.
    pub volume: Volume,
    /// Published: the position at the last round.
    pub position_ms: u64,
    /// Published: the duration of the loaded track.
    pub duration_ms: Option<u64>,
    /// Published: whether the track has finished.
    pub finished: bool,
    pub current_url: Option<String>,
    pub current_token: Option<String>,
}

impl AudioController {
    /// The state after `cmd` has been applied at `now`.
    pub open spec fn after(self, cmd: AudioCommand, now: u64, sink_empty: bool) -> AudioController {
        match cmd {
            AudioCommand::Play { url, token, .. } => AudioController {
                player: None,
                finished: false,
                current_url: Some(url),
                current_token: Some(token),
                ..self
            },
            AudioCommand::Pause => AudioController {
                player: match self.player {
                    Some(p) => Some(p.paused(now, sink_empty)),
                    None => None,
                },
                ..self
            },
            AudioCommand::Resume => AudioController {
                player: match self.player {
                    Some(p) => Some(p.resumed(now)),
                    None => None,
                },
                ..self
            },
            AudioCommand::Stop => AudioController {
                player: None,
                position_ms: 0,
                duration_ms: None,
                finished: true,
                ..self
            },
            AudioCommand::SetVolume(raw) => AudioController {
                player: match self.player {
                    Some(p) => Some(p.with_volume(Volume::of_raw(raw as int))),
                    None => None,
                },
                volume: Volume::of_raw(raw as int),
                ..self
            },
            AudioCommand::Seek(position) => AudioController {
                player: if self.can_seek() {
                    Some(self.player->0.stopped())
                } else {
                    self.player
                },
                finished: false,
                ..self
            },
        }
    }

    /// A seek needs a session and the address and token that it was
    /// started with.
    pub open spec fn can_seek(self) -> bool {
        self.player is Some && self.current_url is Some && self.current_token is Some
    }

    /// The action that `cmd` asks of the worker.
    pub open spec fn action_for(self, cmd: AudioCommand) -> ControllerAction {
        match cmd {
            AudioCommand::Play {
                url,
                token,
                track_id,
                duration_ms,
                is_history_track,
                prefetched_cdn_url,
            } => ControllerAction::StartSession {
                stop_previous: self.player is Some,
                url,
                token,
                track_id,
                duration_ms,
                is_history_track,
                prefetched_cdn_url,
            },
            AudioCommand::Pause => if self.player is Some && !self.player->0.is_paused() {
                ControllerAction::PauseOutput
            } else {
                ControllerAction::Idle
            },
            AudioCommand::Resume => if self.player is Some && self.player->0.is_paused() {
                ControllerAction::ResumeOutput
            } else {
                ControllerAction::Idle
            },
            AudioCommand::Stop => if self.player is Some {
                ControllerAction::StopSession
            } else {
                ControllerAction::Idle
            },
            AudioCommand::SetVolume(raw) => if self.player is Some {
                ControllerAction::SetOutputVolume(Volume::of_raw(raw as int))
            } else {
                ControllerAction::Idle
            },
            AudioCommand::Seek(position) => if self.can_seek() {
                ControllerAction::SeekSession {
                    plan: SeekPlan {
                        target_ms: position,
                        byte_offset: seek_byte_offset(position) as u64,
                    },
                    url: self.current_url->0,
                    token: self.current_token->0,
                }
            } else {
                ControllerAction::Idle
            },
        }
    }

    /// The state once the session `player` that a Play command asked for
    /// has been opened: it plays at the controller's volume, and its
    /// duration is published.
    pub open spec fn with_session(self, player: AudioPlayer) -> AudioController {
        AudioController {
            player: Some(player.with_volume(self.volume)),
            duration_ms: player.total_duration_ms,
            ..self
        }
    }

    /// The state after a round's publication at `now`.
    pub open spec fn published(self, now: u64, sink_empty: bool, finished_flag: bool) -> AudioController {
        match self.player {
            Some(p) => AudioController {
                position_ms: p.position_at(now, sink_empty),
                finished: p.finished_at(now, sink_empty, finished_flag),
                ..self
            },
            None => self,
        }
    }

    /// The state once a seek has connected at `now`.
    pub open spec fn with_seek_connected(self, plan: SeekPlan, now: u64) -> AudioController {
        AudioController {
            player: match self.player {
                Some(p) => Some(p.sought(plan, now)),
                None => None,
            },
            ..self
        }
    }

    /// A controller with no session, at full volume, at position zero, not
    /// finished.
    pub fn new() -> (c: AudioController)
        ensures
            c.player is None,
            c.volume@ == 1000,
            c.position_ms == 0,
            c.duration_ms is None,
            !c.finished,
            c.current_url is None,
            c.current_token is None,
    {
        AudioController {
            player: None,
            volume: Volume::full(),
            position_ms: 0,
            duration_ms: None,
            finished: false,
            current_url: None,
            current_token: None,
        }
    }

    /// Applies one command and says what the worker is to do for it.
    /// `sink_empty` is what the audio output of the active session reports.
    pub fn handle(&mut self, cmd: AudioCommand, now_ms: u64, sink_empty: bool) -> (action:
        ControllerAction)
        requires
            cmd matches AudioCommand::Seek(position) ==> seek_byte_offset(position) <= u64::MAX,
        ensures
            *final(self) == old(self).after(cmd, now_ms, sink_empty),
            action == old(self).action_for(cmd),
    {
        match cmd {
            AudioCommand::Play {
                url,
                token,
                track_id,
                duration_ms,
                is_history_track,
                prefetched_cdn_url,
            } => {
                self.finished = false;
                let previous = self.player.take();
                let stop_previous = previous.is_some();
                self.current_url = Some(url.clone());
                self.current_token = Some(token.clone());
                ControllerAction::StartSession {
                    stop_previous,
                    url,
                    token,
                    track_id,
                    duration_ms,
                    is_history_track,
                    prefetched_cdn_url,
                }
            },
            AudioCommand::Pause => {
                match self.player.take() {
                    Some(mut p) => {
                        let changed = p.pause(now_ms, sink_empty);
                        self.player = Some(p);
                        if changed {
                            ControllerAction::PauseOutput
                        } else {
                            ControllerAction::Idle
                        }
                    },
                    None => ControllerAction::Idle,
                }
            },
            AudioCommand::Resume => {
                match self.player.take() {
                    Some(mut p) => {
                        let changed = p.resume(now_ms);
                        self.player = Some(p);
                        if changed {
                            ControllerAction::ResumeOutput
                        } else {
                            ControllerAction::Idle
                        }
                    },
                    None => ControllerAction::Idle,
                }
            },
            AudioCommand::Stop => {
                let previous = self.player.take();
                self.position_ms = 0;
                self.duration_ms = None;
                self.finished = true;
                if previous.is_some() {
                    ControllerAction::StopSession
                } else {
                    ControllerAction::Idle
                }
            },
            AudioCommand::SetVolume(raw) => {
                let volume = Volume::clamped(raw);
                self.volume = volume;
                match self.player.take() {
                    Some(mut p) => {
                        p.set_volume(volume);
                        self.player = Some(p);
                        ControllerAction::SetOutputVolume(volume)
                    },
                    None => ControllerAction::Idle,
                }
            },
            AudioCommand::Seek(position) => {
                self.finished = false;
                if self.player.is_some() && self.current_url.is_some()
                    && self.current_token.is_some() {
                    let mut p = self.player.take().unwrap();
                    let plan = p.seek(position);
                    self.player = Some(p);
                    let url = self.current_url.clone().unwrap();
                    let token = self.current_token.clone().unwrap();
                    ControllerAction::SeekSession { plan, url, token }
                } else {
                    ControllerAction::Idle
                }
            },
        }
    }

    /// Takes in the session that a Play command asked for, once its output
    /// and pipeline are open. Returns the volume to set on the output.
    pub fn session_started(&mut self, player: AudioPlayer) -> (volume: Volume)
        ensures
            *final(self) == old(self).with_session(player),
            volume == old(self).volume,
    {
        let mut p = player;
        self.duration_ms = p.get_duration();
        p.set_volume(self.volume);
        self.player = Some(p);
        self.volume
    }

    /// Takes note that the seek of `plan` has connected at `now_ms`.
    /// Returns the volume to carry over to the new output, if there is a
    /// session.
    pub fn seek_connected(&mut self, plan: SeekPlan, now_ms: u64) -> (volume: Option<Volume>)
        ensures
            *final(self) == old(self).with_seek_connected(plan, now_ms),
            volume == (match old(self).player {
                Some(p) => Some(p.current_volume),
                None => None,
            }),
    {
        match self.player.take() {
            Some(mut p) => {
                let v = p.seek_connected(plan, now_ms);
                self.player = Some(p);
                Some(v)
            },
            None => None,
        }
    }

    /// Publishes the position and the finished state of the active session,
    /// once per round. Without a session the published values stay.
    pub fn publish(&mut self, now_ms: u64, sink_empty: bool, finished_flag: bool)
        ensures
            *final(self) == old(self).published(now_ms, sink_empty, finished_flag),
    {
        match &self.player {
            Some(p) => {
                let position = p.get_position(now_ms, sink_empty);
                let finished = p.is_finished(now_ms, sink_empty, finished_flag);
                self.position_ms = position;
                self.finished = finished;
            },
            None => {},
        }
    }

    /// The position that was published last, in milliseconds.
    pub fn get_position(&self) -> (p: u64)
        ensures
            p == self.position_ms,
    {
        self.position_ms
    }

    /// The duration that was published last.
    pub fn get_duration(&self) -> (d: Option<u64>)
        ensures
            d == self.duration_ms,
    {
        self.duration_ms
    }

    /// The finished state that was published last.
    pub fn is_finished(&self) -> (f: bool)
        ensures
            f == self.finished,
    {
        self.finished
    }
}

/// After a Stop the published duration is unknown and the published position
/// is zero, no session is left, and the track counts as finished: whatever
/// was played before, and whether or not its session could be opened.
pub proof fn lemma_stop_clears_playback(
    c: AudioController,
    play: AudioCommand,
    opened: Option<AudioPlayer>,
    played_at: u64,
    stopped_at: u64,
    empty_at_play: bool,
    empty_at_stop: bool,
)
    requires
        play is Play,
    ensures
        ({
            let playing = c.after(play, played_at, empty_at_play);
            let loaded = match opened {
                Some(p) => playing.with_session(p),
                None => playing,
            };
            let stopped = loaded.after(AudioCommand::Stop, stopped_at, empty_at_stop);
            &&& stopped.duration_ms is None
            &&& stopped.position_ms == 0
            &&& stopped.player is None
            &&& stopped.finished
        }),
        ({
            let stopped = c.after(AudioCommand::Stop, stopped_at, empty_at_stop);
            &&& stopped.duration_ms is None
            &&& stopped.position_ms == 0
            &&& stopped.player is None
            &&& stopped.finished
            &&& stopped.published(played_at, empty_at_play, false) == stopped
        }),
{
}

/// A Play clears the finished state and leaves no session behind until the
/// new one is reported: there is one active session at most.
pub proof fn lemma_play_replaces_session(c: AudioController, play: AudioCommand, now: u64, sink_empty: bool)
    requires
        play is Play,
    ensures
        c.after(play, now, sink_empty).player is None,
        !c.after(play, now, sink_empty).finished,
        c.after(play, now, sink_empty).volume == c.volume,
{
}

/// The clock of the session is left alone by a change of volume and by the
/// publication of a round: only playing, pausing, resuming and seeking move
/// it.
pub proof fn lemma_clock_moves_only_on_transport(
    c: AudioController,
    raw: i64,
    now: u64,
    sink_empty: bool,
    finished_flag: bool,
)
    requires
        c.player is Some,
    ensures
        c.after(AudioCommand::SetVolume(raw), now, sink_empty).player->0.clock
            == c.player->0.clock,
        c.published(now, sink_empty, finished_flag).player == c.player,
{
}

/// Whatever volume a SetVolume command asks for, the volume that the
/// controller holds afterwards, and that of the active session, lies between
/// silent and full scale.
pub proof fn lemma_set_volume_is_clamped(c: AudioController, raw: i64, now: u64, sink_empty: bool)
    ensures
        ({
            let set = c.after(AudioCommand::SetVolume(raw), now, sink_empty);
            &&& set.volume@ == crate::volume::clamp_permille(raw as int)
            &&& 0 <= set.volume@ <= 1000
            &&& set.player matches Some(p) ==> p.current_volume@ == set.volume@
        }),
{
    crate::volume::lemma_volume_is_clamped(raw as int);
}

} // verus!
