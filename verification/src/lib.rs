//! Verified core of a macOS music scrobbler: metadata cleanup, the playback
//! state machine that decides when a track is announced and scrobbled,
//! MusicBrainz / Last.fm enrichment decisions and the tray menu state.
pub mod text;
pub mod track;
pub mod config;
pub mod text_cleanup;
pub mod clock;
pub mod media_monitor;
pub mod metadata_enricher;
pub mod enrichment;
pub mod ui;
pub mod install;
