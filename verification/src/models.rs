//! The catalog's entities as the engine and the screens read them.

use vstd::prelude::*;

verus! {

/// The account that a track belongs to.
#[derive(Debug, Clone)]
pub struct User {
    pub id: u64,
    pub username: String,
    pub avatar_url: Option<String>,
}

/// A track of the catalog.
#[derive(Debug, Clone)]
pub struct Track {
    pub id: u64,
    pub title: String,
    /// The duration in milliseconds.
    pub duration: u64,
    /// The uncut duration in milliseconds, where it is known.
    pub full_duration: Option<u64>,
    pub stream_url: Option<String>,
    pub permalink_url: Option<String>,
    pub artwork_url: Option<String>,
    pub user: User,
    pub genre: Option<String>,
    pub playback_count: Option<u64>,
    pub streamable: Option<bool>,
    pub access: Option<String>,
    /// The geo-lock policy of the track.
    pub policy: Option<String>,
}

/// A play as the local history keeps it.
#[derive(Debug, Clone)]
pub struct PlaybackRecord {
    pub track_id: u64,
    pub title: String,
    pub artist: String,
    /// The duration in milliseconds.
    pub duration: u64,
    pub genre: Option<String>,
}

/// A playlist of the catalog.
#[derive(Debug, Clone)]
pub struct Playlist {
    pub id: u64,
    pub title: String,
    pub artwork_url: Option<String>,
    pub track_count: u32,
    pub tracks: Vec<Track>,
}

impl User {
    /// A copy of the account.
    pub fn duplicate(&self) -> (copy: User)
        ensures
            copy == *self,
    {
        User {
            id: self.id,
            username: self.username.clone(),
            avatar_url: self.avatar_url.clone(),
        }
    }
}

impl Track {
    /// The track that stands for the play `record`: marked streamable,
    /// with the record's title, artist, duration and genre, and without
    /// any address.
    pub open spec fn of_record(record: PlaybackRecord) -> Track {
        Track {
            id: record.track_id,
            title: record.title,
            duration: record.duration,
            full_duration: None,
            stream_url: None,
            permalink_url: None,
            artwork_url: None,
            user: User { id: 0, username: record.artist, avatar_url: None },
            genre: record.genre,
            playback_count: None,
            streamable: Some(true),
            access: None,
            policy: None,
        }
    }

    /// The track that stands for a play of the local history. Its stream
    /// address is fetched when it is played.
    pub fn from_record(record: &PlaybackRecord) -> (track: Track)
        ensures
            track == Track::of_record(*record),
            track.from_history(),
            track.needs_stream_url(),
    {
        Track {
            id: record.track_id,
            title: record.title.clone(),
            duration: record.duration,
            full_duration: None,
            stream_url: None,
            permalink_url: None,
            artwork_url: None,
            user: User { id: 0, username: record.artist.clone(), avatar_url: None },
            genre: record.genre.clone(),
            playback_count: None,
            streamable: Some(true),
            access: None,
            policy: None,
        }
    }

    /// A copy of the track.
    pub fn duplicate(&self) -> (copy: Track)
        ensures
            copy == *self,
    {
        Track {
            id: self.id,
            title: self.title.clone(),
            duration: self.duration,
            full_duration: self.full_duration,
            stream_url: self.stream_url.clone(),
            permalink_url: self.permalink_url.clone(),
            artwork_url: self.artwork_url.clone(),
            user: self.user.duplicate(),
            genre: self.genre.clone(),
            playback_count: self.playback_count,
            streamable: self.streamable,
            access: self.access.clone(),
            policy: self.policy.clone(),
        }
    }

    /// The duration that playback goes by: the uncut duration where it is
    /// known, else the duration.
    pub open spec fn actual_duration(&self) -> u64 {
        match self.full_duration {
            Some(full) => full,
            None => self.duration,
        }
    }

    /// True if the track looks like one restored from the local history:
    /// neither its uncut duration nor its page address is known.
    pub open spec fn from_history(&self) -> bool {
        self.full_duration is None && self.permalink_url is None
    }

    /// True if the track is marked streamable but has no stream address
    /// yet, so that the address is to be fetched when the track is played.
    pub open spec fn needs_stream_url(&self) -> bool {
        self.streamable == Some(true) && self.stream_url is None
    }

    /// The duration that playback goes by, in milliseconds.
    pub fn playback_duration_ms(&self) -> (d: u64)
        ensures
            d == self.actual_duration(),
    {
        match self.full_duration {
            Some(full) => full,
            None => self.duration,
        }
    }

    /// Whether the track counts as one from the local history, for which
    /// the pull source waits longer.
    pub fn is_history_track(&self) -> (b: bool)
        ensures
            b == self.from_history(),
    {
        self.full_duration.is_none() && self.permalink_url.is_none()
    }

    /// Whether the stream address of the track is to be fetched on demand.
    pub fn needs_stream_url_fetch(&self) -> (b: bool)
        ensures
            b == self.needs_stream_url(),
    {
        let streamable = match self.streamable {
            Some(s) => s,
            None => false,
        };
        streamable && self.stream_url.is_none()
    }
}

} // verus!
