//! Audio acquisition and playback orchestration for a home media player:
//! reading the table of contents and raw audio of a compact disc, streaming a
//! track as samples, and the decisions of the playback engine (queue cursor,
//! mute, device switching, session events).
pub mod cd_audio;
pub mod config;
pub mod player;
pub mod text;
pub mod track_source;
pub mod ui_state;
