//! The playback state on the caller's side of the controller.
//!
//! Here the transport changes of the user are turned into commands for the
//! controller. Each of them starts a new playback session, which makes the
//! results of background work that was set off before it stale.

use vstd::prelude::*;
use vstd::string::*;
use crate::controller::AudioCommand;
use crate::models::Track;
use crate::prefetch::PrefetchState;
use crate::session::{PlaybackSession, SessionTagged, TransportChange, next_session};
use crate::text::{append_decimal, decimal};
use crate::track_filter::{is_track_playable, playable};
use crate::volume::{Volume, VolumeControl};

verus! {

/// One step of the seek keys, in milliseconds.
pub const SEEK_STEP_MS: u64 = 10_000;

/// A track that has played for less than this is not taken for finished.
pub const MIN_TRACK_ELAPSED_MS: u64 = 1_000;

/// What happens at the end of the queue and of a track.
#[derive(Clone, Copy, Debug, PartialEq, Eq, Structural)]
pub enum RepeatMode {
    Off,
    All,
    One,
}

/// What the token provider has for a request.
#[derive(Debug)]
pub enum TokenLookup {
    /// Nobody is signed in.
    SignedOut,
    /// There is no token that is valid now.
    NoToken,
    /// A token that is valid now.
    Token(String),
}

/// What came of the wish to play a track.
#[derive(Debug)]
pub enum PlayOutcome {
    /// The queue does not hold the track.
    NotInQueue { message: String },
    /// The track has no stream address yet: fetch it, then play.
    FetchStreamUrl { track_id: u64 },
    /// The track cannot be played: show the message and go on to the next.
    SkipUnplayable { message: String },
    /// Send `command` to the controller; the audio of the track starts, so
    /// the play is recorded in the history.
    Started { command: AudioCommand, artwork_url: Option<String> },
    /// There is no token to play with.
    Rejected { message: String },
}

/// What a press on play/pause leads to.
#[derive(Clone, Copy, Debug, PartialEq, Eq, Structural)]
pub enum ToggleAction {
    /// No track is loaded.
    Ignored,
    /// Send a Pause.
    Pause,
    /// Send a Resume.
    Resume,
    /// The track was stopped or has finished: play it again from its start.
    Restart(u64),
}

/// What follows the arrival of a track that was fetched on demand.
#[derive(Debug)]
pub enum FetchStep {
    /// The session has moved on since the fetch was set off: drop the
    /// result.
    Stale,
    /// Load these tracks into the queue and play the first, which has this
    /// id.
    LoadAndPlay { tracks: Vec<Track>, first_id: u64 },
    /// The fetch brought nothing that can be played: go on to the next
    /// track.
    PlayNext,
    /// The fetch failed: show the message.
    Failed { message: String },
}

/// The playback state that the caller keeps.
#[derive(Debug)]
pub struct AudioState {
    pub current_track_id: Option<u64>,
    pub last_track_id: Option<u64>,
    pub current_title: String,
    pub current_artist: String,
    pub current_genre: Option<String>,
    pub current_duration_ms: u64,
    pub current_stream_url: Option<String>,
    pub current_permalink_url: Option<String>,
    /// The wall-clock reading at which the audio of the track started.
    pub track_start_ms: Option<u64>,
    pub is_playing: bool,
    pub shuffle_mode: bool,
    pub repeat_mode: RepeatMode,
    pub volume: VolumeControl,
    /// The session that background results are tagged with.
    pub playback_session: PlaybackSession,
    pub prefetch: PrefetchState,
    /// True once the end of the current track has been dealt with.
    pub track_finished_handled: bool,
}

/// The message for a track that the queue does not hold.
pub open spec fn not_in_queue_message(track_id: u64) -> Seq<char> {
    "Track "@ + decimal(track_id as nat) + " not found in queue"@
}

/// The message for a track that cannot be played.
pub open spec fn not_playable_message(title: Seq<char>) -> Seq<char> {
    "Track '"@ + title + "' is not playable (geo-blocked or preview-only)"@
}

impl AudioState {
    /// True if the current track's details are those of `track`.
    pub open spec fn shows(&self, track: Track) -> bool {
        &&& self.current_track_id == Some(track.id)
        &&& self.current_title == track.title
        &&& self.current_artist == track.user.username
        &&& self.current_genre == track.genre
        &&& self.current_duration_ms == track.actual_duration()
        &&& self.current_stream_url == track.stream_url
        &&& self.current_permalink_url == track.permalink_url
    }

    /// True if the current track's details are the same in `self` and
    /// `other`.
    pub open spec fn same_track(&self, other: &AudioState) -> bool {
        &&& self.current_track_id == other.current_track_id
        &&& self.current_title == other.current_title
        &&& self.current_artist == other.current_artist
        &&& self.current_genre == other.current_genre
        &&& self.current_duration_ms == other.current_duration_ms
        &&& self.current_stream_url == other.current_stream_url
        &&& self.current_permalink_url == other.current_permalink_url
    }

    /// True if playback mode, volume and what was played last are the same
    /// in `self` and `other`.
    pub open spec fn same_settings(&self, other: &AudioState) -> bool {
        &&& self.last_track_id == other.last_track_id
        &&& self.shuffle_mode == other.shuffle_mode
        &&& self.repeat_mode == other.repeat_mode
        &&& self.volume == other.volume
    }

    /// True if what became of the playback of the current track, the
    /// session and what was prefetched are the same in `self` and `other`.
    pub open spec fn same_run(&self, other: &AudioState) -> bool {
        &&& self.is_playing == other.is_playing
        &&& self.track_start_ms == other.track_start_ms
        &&& self.track_finished_handled == other.track_finished_handled
        &&& self.playback_session == other.playback_session
        &&& self.prefetch == other.prefetch
    }

    /// Nothing loaded, nothing playing, at the volume `volume`, in the
    /// first session.
    pub fn new(volume: VolumeControl, shuffle_mode: bool, repeat_mode: RepeatMode) -> (s: AudioState)
        ensures
            s.current_track_id is None,
            s.last_track_id is None,
            s.current_title@.len() == 0,
            s.current_artist@.len() == 0,
            s.current_genre is None,
            s.current_duration_ms == 0,
            s.current_stream_url is None,
            s.current_permalink_url is None,
            s.track_start_ms is None,
            !s.is_playing,
            s.shuffle_mode == shuffle_mode,
            s.repeat_mode == repeat_mode,
            s.volume == volume,
            s.playback_session.value() == 0,
            !s.prefetch.triggered,
            s.prefetch.cdn_url is None,
            s.prefetch.for_track_id is None,
            s.prefetch.fetched_at_ms is None,
            !s.track_finished_handled,
    {
        AudioState {
            current_track_id: None,
            last_track_id: None,
            current_title: String::new(),
            current_artist: String::new(),
            current_genre: None,
            current_duration_ms: 0,
            current_stream_url: None,
            current_permalink_url: None,
            track_start_ms: None,
            is_playing: false,
            shuffle_mode,
            repeat_mode,
            volume,
            playback_session: PlaybackSession::new(),
            prefetch: PrefetchState::new(),
            track_finished_handled: false,
        }
    }

    /// Forgets the current track, at a stop.
    pub fn reset_track(&mut self)
        ensures
            final(self).current_track_id is None,
            final(self).current_title@.len() == 0,
            final(self).current_artist@.len() == 0,
            final(self).current_genre is None,
            final(self).current_duration_ms == 0,
            final(self).current_stream_url is None,
            final(self).current_permalink_url is None,
            final(self).track_start_ms is None,
            !final(self).is_playing,
            final(self).same_settings(old(self)),
            final(self).playback_session == old(self).playback_session,
            final(self).prefetch == old(self).prefetch,
            final(self).track_finished_handled == old(self).track_finished_handled,
    {
        self.current_track_id = None;
        self.current_title = String::new();
        self.current_artist = String::new();
        self.current_genre = None;
        self.current_duration_ms = 0;
        self.current_stream_url = None;
        self.current_permalink_url = None;
        self.track_start_ms = None;
        self.is_playing = false;
    }

    /// Plays the track `track_id`. `track` is what the queue holds under
    /// that id, `token` what the token provider has.
    ///
    /// A new session starts in every case. The track is played if the queue
    /// holds it, it can be played, and there is a token. Then the command
    /// for the controller carries the media address that was resolved ahead
    /// of time for this track, if there is one, and the trigger of the
    /// prefetch is free again.
    pub fn play_track(
        &mut self,
        track_id: u64,
        track: Option<&Track>,
        token: TokenLookup,
        now_ms: u64,
    ) -> (outcome: PlayOutcome)
        ensures
            final(self).playback_session.value() == next_session(
                old(self).playback_session.value(),
            ),
            final(self).same_settings(old(self)),
            final(self).prefetch.cdn_url == old(self).prefetch.cdn_url,
            final(self).prefetch.for_track_id == old(self).prefetch.for_track_id,
            final(self).prefetch.fetched_at_ms == old(self).prefetch.fetched_at_ms,
            match outcome {
                PlayOutcome::NotInQueue { message } => {
                    &&& track is None
                    &&& message@ == not_in_queue_message(track_id)
                },
                PlayOutcome::FetchStreamUrl { track_id: id } => {
                    &&& track matches Some(t) && t.needs_stream_url()
                    &&& id == track_id
                },
                PlayOutcome::SkipUnplayable { message } => {
                    &&& track matches Some(t) && !t.needs_stream_url() && !playable(*t)
                    &&& message@ == not_playable_message(track->0.title@)
                },
                PlayOutcome::Started { command, artwork_url } => {
                    &&& track matches Some(t) && !t.needs_stream_url() && playable(*t)
                    &&& token matches TokenLookup::Token(access)
                    &&& command == (AudioCommand::Play {
                        url: track->0.stream_url->0,
                        token: access,
                        track_id: track->0.id,
                        duration_ms: track->0.actual_duration(),
                        is_history_track: track->0.from_history(),
                        prefetched_cdn_url: if old(self).prefetch.valid_for(track->0.id) {
                            old(self).prefetch.cdn_url
                        } else {
                            None
                        },
                    })
                    &&& artwork_url == track->0.artwork_url
                },
                PlayOutcome::Rejected { message } => {
                    &&& track matches Some(t) && !t.needs_stream_url() && playable(*t)
                    &&& match token {
                        TokenLookup::SignedOut => message@ == "Authentication required"@,
                        TokenLookup::NoToken => message@
                            == "Failed to get authentication token"@,
                        TokenLookup::Token(_) => false,
                    }
                },
            },
            outcome is Started ==> {
                &&& final(self).shows(*track->0)
                &&& final(self).is_playing
                &&& final(self).track_start_ms == Some(now_ms)
                &&& !final(self).track_finished_handled
                &&& !final(self).prefetch.triggered
            },
            outcome is Rejected ==> {
                &&& final(self).shows(*track->0)
                &&& !final(self).is_playing
                &&& final(self).track_start_ms == old(self).track_start_ms
                &&& final(self).track_finished_handled == old(self).track_finished_handled
                &&& final(self).prefetch.triggered == old(self).prefetch.triggered
            },
            !(outcome is Started) && !(outcome is Rejected) ==> {
                &&& final(self).same_track(old(self))
                &&& !final(self).is_playing
                &&& final(self).track_start_ms == old(self).track_start_ms
                &&& final(self).track_finished_handled == old(self).track_finished_handled
                &&& final(self).prefetch.triggered == old(self).prefetch.triggered
            },
    {
        self.playback_session.advance(TransportChange::Play);
        self.is_playing = false;
        let track = match track {
            Some(track) => track,
            None => {
                let mut message = String::from_str("Track ");
                append_decimal(&mut message, track_id);
                message.append(" not found in queue");
                return PlayOutcome::NotInQueue { message };
            },
        };
        if track.needs_stream_url_fetch() {
            return PlayOutcome::FetchStreamUrl { track_id };
        }
        if !is_track_playable(track) {
            let mut message = String::from_str("Track '");
            message.append(track.title.as_str());
            message.append("' is not playable (geo-blocked or preview-only)");
            return PlayOutcome::SkipUnplayable { message };
        }
        self.current_track_id = Some(track.id);
        self.current_title = track.title.clone();
        self.current_artist = track.user.username.clone();
        self.current_genre = track.genre.clone();
        self.current_duration_ms = track.playback_duration_ms();
        self.current_stream_url = track.stream_url.clone();
        self.current_permalink_url = track.permalink_url.clone();
        let stream_url = track.stream_url.clone().unwrap();
        match token {
            TokenLookup::Token(access) => {
                let prefetched = self.prefetch.prefetched_for(track.id);
                let command = AudioCommand::Play {
                    url: stream_url,
                    token: access,
                    track_id: track.id,
                    duration_ms: self.current_duration_ms,
                    is_history_track: track.is_history_track(),
                    prefetched_cdn_url: prefetched,
                };
                self.is_playing = true;
                self.track_start_ms = Some(now_ms);
                self.track_finished_handled = false;
                self.prefetch.reset_trigger();
                PlayOutcome::Started { command, artwork_url: track.artwork_url.clone() }
            },
            TokenLookup::NoToken => PlayOutcome::Rejected {
                message: String::from_str("Failed to get authentication token"),
            },
            TokenLookup::SignedOut => PlayOutcome::Rejected {
                message: String::from_str("Authentication required"),
            },
        }
    }

    /// Stops playback and forgets which track was current. Returns the
    /// command for the controller.
    pub fn stop_playback(&mut self) -> (command: AudioCommand)
        ensures
            command == AudioCommand::Stop,
            final(self).playback_session.value() == next_session(
                old(self).playback_session.value(),
            ),
            !final(self).is_playing,
            final(self).current_track_id is None,
            final(self).track_start_ms is None,
            final(self).same_settings(old(self)),
            final(self).prefetch == old(self).prefetch,
            final(self).track_finished_handled == old(self).track_finished_handled,
            final(self).current_title == old(self).current_title,
            final(self).current_artist == old(self).current_artist,
            final(self).current_genre == old(self).current_genre,
            final(self).current_duration_ms == old(self).current_duration_ms,
            final(self).current_stream_url == old(self).current_stream_url,
            final(self).current_permalink_url == old(self).current_permalink_url,
    {
        self.playback_session.advance(TransportChange::Stop);
        self.is_playing = false;
        self.current_track_id = None;
        self.track_start_ms = None;
        AudioCommand::Stop
    }

    /// Seeks to `position_ms`. The trigger of the prefetch is free again.
    /// Returns the command for the controller.
    pub fn seek_to(&mut self, position_ms: u64) -> (command: AudioCommand)
        ensures
            command == AudioCommand::Seek(position_ms),
            final(self).playback_session.value() == next_session(
                old(self).playback_session.value(),
            ),
            !final(self).prefetch.triggered,
            final(self).prefetch.cdn_url == old(self).prefetch.cdn_url,
            final(self).prefetch.for_track_id == old(self).prefetch.for_track_id,
            final(self).prefetch.fetched_at_ms == old(self).prefetch.fetched_at_ms,
            final(self).same_track(old(self)),
            final(self).same_settings(old(self)),
            final(self).is_playing == old(self).is_playing,
            final(self).track_start_ms == old(self).track_start_ms,
            final(self).track_finished_handled == old(self).track_finished_handled,
    {
        self.playback_session.advance(TransportChange::Seek);
        self.prefetch.reset_trigger();
        AudioCommand::Seek(position_ms)
    }

    /// Pauses what plays, resumes what is paused, and starts a track again
    /// that was stopped or has finished. `controller_finished` is the
    /// finished state that the controller publishes.
    pub fn toggle_playback(&mut self, controller_finished: bool, now_ms: u64) -> (action: ToggleAction)
        ensures
            action == (match old(self).current_track_id {
                None => ToggleAction::Ignored,
                Some(id) => if old(self).is_playing {
                    ToggleAction::Pause
                } else if old(self).track_start_ms is None || controller_finished {
                    ToggleAction::Restart(id)
                } else {
                    ToggleAction::Resume
                },
            }),
            final(self).is_playing == (match action {
                ToggleAction::Ignored => old(self).is_playing,
                ToggleAction::Pause => false,
                ToggleAction::Resume => true,
                ToggleAction::Restart(_) => false,
            }),
            final(self).track_start_ms == (if action is Restart {
                Some(now_ms)
            } else {
                old(self).track_start_ms
            }),
            final(self).same_track(old(self)),
            final(self).same_settings(old(self)),
            final(self).playback_session == old(self).playback_session,
            final(self).prefetch == old(self).prefetch,
            final(self).track_finished_handled == old(self).track_finished_handled,
    {
        let track_id = match self.current_track_id {
            Some(id) => id,
            None => {
                return ToggleAction::Ignored;
            },
        };
        if self.is_playing {
            self.is_playing = false;
            ToggleAction::Pause
        } else if self.track_start_ms.is_none() || controller_finished {
            self.track_start_ms = Some(now_ms);
            ToggleAction::Restart(track_id)
        } else {
            self.is_playing = true;
            ToggleAction::Resume
        }
    }

    /// The play/pause key: pauses what plays, and resumes if a track is
    /// loaded. Returns the command for the controller, if there is one.
    pub fn play_pause_shortcut(&mut self) -> (command: Option<AudioCommand>)
        ensures
            command == (if old(self).is_playing {
                Some(AudioCommand::Pause)
            } else if old(self).current_track_id is Some {
                Some(AudioCommand::Resume)
            } else {
                None
            }),
            final(self).is_playing == (!old(self).is_playing && old(self).current_track_id
                is Some),
            final(self).same_track(old(self)),
            final(self).same_settings(old(self)),
            final(self).playback_session == old(self).playback_session,
            final(self).prefetch == old(self).prefetch,
            final(self).track_start_ms == old(self).track_start_ms,
            final(self).track_finished_handled == old(self).track_finished_handled,
    {
        if self.is_playing {
            self.is_playing = false;
            Some(AudioCommand::Pause)
        } else if self.current_track_id.is_some() {
            self.is_playing = true;
            Some(AudioCommand::Resume)
        } else {
            None
        }
    }

    /// Takes in the result of a fetch of tracks that was set off to play
    /// them. A result whose session is not the live one is dropped.
    pub fn check_track_fetch(&self, result: SessionTagged<Result<Vec<Track>, String>>) -> (step:
        FetchStep)
        ensures
            match step {
                FetchStep::Stale => result.session != self.playback_session.value(),
                FetchStep::LoadAndPlay { tracks, first_id } => {
                    &&& result.session == self.playback_session.value()
                    &&& result.value == Ok::<Vec<Track>, String>(tracks)
                    &&& tracks@.len() > 0
                    &&& first_id == tracks@[0].id
                },
                FetchStep::PlayNext => {
                    &&& result.session == self.playback_session.value()
                    &&& result.value matches Ok(tracks) && tracks@.len() == 0
                },
                FetchStep::Failed { message } => {
                    &&& result.session == self.playback_session.value()
                    &&& result.value matches Err(e) && message@ == "Failed to load track: "@ + e@
                },
            },
    {
        match self.playback_session.accept(result) {
            None => FetchStep::Stale,
            Some(Ok(tracks)) => {
                if tracks.len() > 0 {
                    let first_id = tracks[0].id;
                    FetchStep::LoadAndPlay { tracks, first_id }
                } else {
                    FetchStep::PlayNext
                }
            },
            Some(Err(e)) => {
                let mut message = String::from_str("Failed to load track: ");
                message.append(e.as_str());
                FetchStep::Failed { message }
            },
        }
    }

    /// The shuffle key: turns shuffle on or off and says so.
    pub fn shuffle_shortcut(&mut self) -> (message: &'static str)
        ensures
            final(self).shuffle_mode == !old(self).shuffle_mode,
            message@ == (if final(self).shuffle_mode {
                "Shuffle on"@
            } else {
                "Shuffle off"@
            }),
            final(self).repeat_mode == old(self).repeat_mode,
            final(self).volume == old(self).volume,
            final(self).last_track_id == old(self).last_track_id,
            final(self).same_track(old(self)),
            final(self).same_run(old(self)),
    {
        self.shuffle_mode = !self.shuffle_mode;
        if self.shuffle_mode {
            "Shuffle on"
        } else {
            "Shuffle off"
        }
    }

    /// The repeat key: goes on to the next repeat mode and says which it
    /// is. Shuffle stays as it is.
    pub fn repeat_shortcut(&mut self) -> (message: &'static str)
        ensures
            final(self).repeat_mode == (match old(self).repeat_mode {
                RepeatMode::Off => RepeatMode::All,
                RepeatMode::All => RepeatMode::One,
                RepeatMode::One => RepeatMode::Off,
            }),
            message@ == (match final(self).repeat_mode {
                RepeatMode::Off => "Repeat off"@,
                RepeatMode::All => "Repeat all"@,
                RepeatMode::One => "Repeat one"@,
            }),
            final(self).shuffle_mode == old(self).shuffle_mode,
            final(self).volume == old(self).volume,
            final(self).last_track_id == old(self).last_track_id,
            final(self).same_track(old(self)),
            final(self).same_run(old(self)),
    {
        let next = match self.repeat_mode {
            RepeatMode::Off => RepeatMode::All,
            RepeatMode::All => RepeatMode::One,
            RepeatMode::One => RepeatMode::Off,
        };
        self.repeat_mode = next;
        match next {
            RepeatMode::Off => "Repeat off",
            RepeatMode::All => "Repeat all",
            RepeatMode::One => "Repeat one",
        }
    }

    /// The track to play when the user asks for the next one: the one that
    /// the queue has next; at the end of the queue its first track, if the
    /// whole queue repeats.
    pub fn play_next(&self, next: Option<u64>, first: Option<u64>) -> (track_id: Option<u64>)
        ensures
            track_id == (match next {
                Some(id) => Some(id),
                None => if self.repeat_mode == RepeatMode::All {
                    first
                } else {
                    None
                },
            }),
    {
        match next {
            Some(id) => Some(id),
            None => match self.repeat_mode {
                RepeatMode::All => first,
                _ => None,
            },
        }
    }

    /// Turns shuffle on or off. Returns the new setting, for the queue.
    pub fn toggle_shuffle(&mut self) -> (shuffle: bool)
        ensures
            shuffle == !old(self).shuffle_mode,
            final(self).shuffle_mode == shuffle,
            final(self).repeat_mode == old(self).repeat_mode,
            final(self).volume == old(self).volume,
            final(self).last_track_id == old(self).last_track_id,
            final(self).same_track(old(self)),
            final(self).same_run(old(self)),
    {
        self.shuffle_mode = !self.shuffle_mode;
        self.shuffle_mode
    }

    /// Goes on to the next repeat mode: off, all, one, off. Repeating one
    /// track turns shuffle off.
    pub fn cycle_repeat_mode(&mut self) -> (mode: RepeatMode)
        ensures
            mode == (match old(self).repeat_mode {
                RepeatMode::Off => RepeatMode::All,
                RepeatMode::All => RepeatMode::One,
                RepeatMode::One => RepeatMode::Off,
            }),
            final(self).repeat_mode == mode,
            final(self).shuffle_mode == (old(self).shuffle_mode && !(mode == RepeatMode::One)),
            final(self).volume == old(self).volume,
            final(self).last_track_id == old(self).last_track_id,
            final(self).same_track(old(self)),
            final(self).same_run(old(self)),
    {
        let next = match self.repeat_mode {
            RepeatMode::Off => RepeatMode::All,
            RepeatMode::All => {
                self.shuffle_mode = false;
                RepeatMode::One
            },
            RepeatMode::One => RepeatMode::Off,
        };
        self.repeat_mode = next;
        next
    }

    /// Sets the volume to `raw` thousandths, limited to the valid range.
    /// Returns the command for the controller.
    pub fn set_volume(&mut self, raw: i64) -> (command: AudioCommand)
        ensures
            final(self).volume.volume@ == crate::volume::clamp_permille(raw as int),
            final(self).volume.volume@ <= 1000,
            final(self).volume.muted == old(self).volume.muted,
            final(self).volume.volume_before_mute == old(self).volume.volume_before_mute,
            final(self).shuffle_mode == old(self).shuffle_mode,
            final(self).repeat_mode == old(self).repeat_mode,
            command == AudioCommand::SetVolume(final(self).volume.volume@ as i64),
            final(self).last_track_id == old(self).last_track_id,
            final(self).same_track(old(self)),
            final(self).same_run(old(self)),
    {
        let applied = self.volume.set_volume(raw);
        AudioCommand::SetVolume(applied.permille() as i64)
    }

    /// Mutes or unmutes. Returns the command for the controller.
    pub fn toggle_mute(&mut self) -> (command: AudioCommand)
        ensures
            final(self).volume.muted == !old(self).volume.muted,
            final(self).volume.volume@ == (if old(self).volume.muted {
                old(self).volume.volume_before_mute@
            } else {
                0
            }),
            final(self).volume.volume_before_mute@ == (if old(self).volume.muted {
                old(self).volume.volume_before_mute@
            } else {
                old(self).volume.volume@
            }),
            final(self).shuffle_mode == old(self).shuffle_mode,
            final(self).repeat_mode == old(self).repeat_mode,
            command == AudioCommand::SetVolume(final(self).volume.volume@ as i64),
            final(self).last_track_id == old(self).last_track_id,
            final(self).same_track(old(self)),
            final(self).same_run(old(self)),
    {
        let applied = self.volume.toggle_mute();
        AudioCommand::SetVolume(applied.permille() as i64)
    }

    /// The duration to show: the one that the controller publishes, else
    /// the one that came with the track.
    pub fn get_duration(&self, published: Option<u64>) -> (d: u64)
        ensures
            d == (match published {
                Some(p) => p,
                None => self.current_duration_ms,
            }),
    {
        match published {
            Some(p) => p,
            None => self.current_duration_ms,
        }
    }

    /// Whether the current track is among the liked ones.
    pub fn is_current_track_liked(&self, liked: &std::collections::HashSet<u64>) -> (b: bool)
        ensures
            b == (self.current_track_id matches Some(id) && liked@.contains(id)),
    {
        match self.current_track_id {
            Some(id) => liked.contains(&id),
            None => false,
        }
    }
}

/// Where the seek-forward key goes from `position_ms`: one step on, if that
/// is still before the end of the track.
pub fn seek_forward_target(position_ms: u64, duration_ms: u64) -> (target: Option<u64>)
    ensures
        target == (if position_ms + SEEK_STEP_MS < duration_ms {
            Some((position_ms + SEEK_STEP_MS) as u64)
        } else {
            None
        }),
{
    match position_ms.checked_add(SEEK_STEP_MS) {
        Some(target) => if target < duration_ms {
            Some(target)
        } else {
            None
        },
        None => None,
    }
}

/// Where the seek-backward key goes from `position_ms`: one step back, at
/// most to the start.
pub fn seek_backward_target(position_ms: u64) -> (target: u64)
    ensures
        target == (if position_ms >= SEEK_STEP_MS {
            position_ms - SEEK_STEP_MS
        } else {
            0
        }),
{
    position_ms.saturating_sub(SEEK_STEP_MS)
}

/// Play, stop and seek each start a new session, so a result that was
/// tagged before any of them no longer matches the live session.
pub proof fn lemma_transport_change_outdates_results(before: u64)
    ensures
        next_session(before) != before,
        crate::session::delivered(next_session(before), before, ()) is None,
{
}

} // verus!
