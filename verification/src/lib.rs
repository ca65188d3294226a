//! A music library manager: the song and playlist library, the command
//! language, the configuration table, the playback state machine and the
//! plugin registry.
pub mod text;
pub mod command;
pub mod library;
pub mod player;
pub mod config;
pub mod plugin;
pub mod session;
