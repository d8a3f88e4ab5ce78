//! Streaming playback engine: the decisions behind progressive playback of
//! remotely hosted compressed audio, with their contracts.

pub mod artwork;
pub mod audio_state;
pub mod auth;
pub mod autoplay;
pub mod buffer;
pub mod clock;
pub mod content;
pub mod controller;
pub mod decoder;
pub mod home;
pub mod library;
pub mod models;
pub mod navigation;
pub mod pipeline;
pub mod player;
pub mod playlists;
pub mod prefetch;
pub mod redirect;
pub mod renderer;
pub mod retry;
pub mod sequences;
pub mod session;
pub mod shader_reload;
pub mod social;
pub mod source;
pub mod tap;
pub mod text;
pub mod track_fetch;
pub mod track_filter;
pub mod volume;
