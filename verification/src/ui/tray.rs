//! State and texts of the menu bar (tray) menu.
use vstd::prelude::*;

use crate::track::{clone_opt_string, display_text, idagio_art_prefix, idagio_art_suffix, opt_chars, Track};

verus! {

/// Shared state for the tray icon.
#[derive(Debug, Clone)]
pub struct TrayState {
    pub now_playing: Option<String>,
    pub last_scrobbled: Option<String>,
    pub album_art_url: Option<String>,
}

impl Default for TrayState {
    fn default() -> (r: Self)
        ensures
            r.now_playing is None,
            r.last_scrobbled is None,
            r.album_art_url is None,
    {
        TrayState { now_playing: None, last_scrobbled: None, album_art_url: None }
    }
}

/// `prefix` followed by the text, or by `None` when there is no text.
pub open spec fn labelled(prefix: Seq<char>, text: Option<Seq<char>>) -> Seq<char> {
    match text {
        Some(t) => prefix + t,
        None => prefix + "None"@,
    }
}

/// Text of the "now playing" menu item.
pub open spec fn now_playing_text(track: Option<Seq<char>>) -> Seq<char> {
    labelled("Now Playing: "@, track)
}

/// Text of the "last scrobbled" menu item.
pub open spec fn last_scrobbled_text(track: Option<Seq<char>>) -> Seq<char> {
    labelled("Last Scrobbled: "@, track)
}

/// Text of the album art menu item when art is available.
pub open spec fn album_art_available_text() -> Seq<char> {
    "\u{1F5BC}\u{FE0F} Album Art Available"@
}

/// Text of the love button for a track's loved status.
pub open spec fn love_text(is_loved: bool) -> Seq<char> {
    if is_loved {
        "\u{2665}\u{FE0F} Loved"@
    } else {
        "\u{1F90D} Love"@
    }
}

/// `prefix` followed by the text, or by `None`.
fn label(prefix: &str, text: &Option<String>) -> (r: String)
    ensures
        r@ == labelled(prefix@, opt_chars(*text)),
{
    let mut s = String::from_str(prefix);
    match text {
        Some(t) => s.append(t.as_str()),
        None => s.append("None"),
    }
    s
}

/// Text of the love button for a track's loved status.
pub fn love_button_text(is_loved: bool) -> (r: String)
    ensures
        r@ == love_text(is_loved),
{
    if is_loved {
        String::from_str("\u{2665}\u{FE0F} Loved")
    } else {
        String::from_str("\u{1F90D} Love")
    }
}

impl TrayState {
    /// Records the track now playing; returns the menu item text.
    pub fn update_now_playing(&mut self, track: Option<String>) -> (r: String)
        ensures
            r@ == now_playing_text(opt_chars(track)),
            final(self).now_playing == track,
            final(self).last_scrobbled == old(self).last_scrobbled,
            final(self).album_art_url == old(self).album_art_url,
    {
        let text = label("Now Playing: ", &track);
        self.now_playing = track;
        text
    }

    /// Records the track last scrobbled; returns the menu item text.
    pub fn update_last_scrobbled(&mut self, track: Option<String>) -> (r: String)
        ensures
            r@ == last_scrobbled_text(opt_chars(track)),
            final(self).last_scrobbled == track,
            final(self).now_playing == old(self).now_playing,
            final(self).album_art_url == old(self).album_art_url,
    {
        let text = label("Last Scrobbled: ", &track);
        self.last_scrobbled = track;
        text
    }

    /// Records the album art address; returns the album art menu item's text
    /// and whether it is enabled.
    pub fn update_album_art(&mut self, url: Option<String>) -> (r: (String, bool))
        ensures
            final(self).album_art_url == url,
            final(self).now_playing == old(self).now_playing,
            final(self).last_scrobbled == old(self).last_scrobbled,
            url is Some ==> r.0@ == album_art_available_text() && r.1,
            url is None ==> r.0@ == Seq::<char>::empty() && !r.1,
    {
        let item = match &url {
            Some(_) => (String::from_str("\u{1F5BC}\u{FE0F} Album Art Available"), true),
            None => (String::new(), false),
        };
        self.album_art_url = url;
        item
    }

    /// The currently playing track.
    pub fn current_track(&self) -> (r: Option<String>)
        ensures
            r == self.now_playing,
    {
        clone_opt_string(&self.now_playing)
    }

    /// The album art address of the currently playing track.
    pub fn album_art_url(&self) -> (r: Option<String>)
        ensures
            r == self.album_art_url,
    {
        clone_opt_string(&self.album_art_url)
    }
}

/// Love button text for a track that cannot be scrobbled.
pub open spec fn not_scrobblable_text() -> Seq<char> {
    "Idagio - cannot be scrobbled"@
}

/// How the menu and the services react when a track starts playing.
#[derive(Debug)]
pub struct NowPlayingReaction {
    /// Text recorded as now playing: `artist - title`, or the title alone.
    pub track_text: String,
    /// IDAGIO artwork to show at once, for tracks with a catalog number.
    pub idagio_art: Option<String>,
    /// Tell the scrobbling services and look up the loved status.
    pub notify_services: bool,
    /// Text of the love button.
    pub love_text: String,
    /// Whether the love button can be clicked.
    pub love_enabled: bool,
}

/// The reaction to a track that starts playing; `should_scrobble` is false
/// for tracks that are shown only.
pub fn now_playing_reaction(track: &Track, should_scrobble: bool) -> (r: NowPlayingReaction)
    ensures
        r.track_text@ == display_text(track.artist@, track.title@),
        match track.upc {
            Some(u) => r.idagio_art matches Some(a) && a@ == idagio_art_prefix() + u@ + idagio_art_suffix(),
            None => r.idagio_art is None,
        },
        r.notify_services == should_scrobble,
        r.love_text@ == if should_scrobble {
            love_text(false)
        } else {
            not_scrobblable_text()
        },
        r.love_enabled == should_scrobble,
{
    let love = if should_scrobble {
        love_button_text(false)
    } else {
        String::from_str("Idagio - cannot be scrobbled")
    };
    NowPlayingReaction {
        track_text: track.display_string(),
        idagio_art: track.idagio_album_art_url(),
        notify_services: should_scrobble,
        love_text: love,
        love_enabled: should_scrobble,
    }
}

/// Text recorded as last scrobbled: `artist - title`, even when the artist
/// is empty.
pub fn scrobbled_track_text(track: &Track) -> (r: String)
    ensures
        r@ == track.artist@ + " - "@ + track.title@,
{
    let mut s = track.artist.clone();
    s.append(" - ");
    s.append(track.title.as_str());
    s
}

} // verus!
