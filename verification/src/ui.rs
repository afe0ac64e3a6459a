//! Menu bar and album art presentation logic.
pub mod album_art;
pub mod tray;
