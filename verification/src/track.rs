//! The track record that flows from the media monitor to the scrobblers.
use vstd::prelude::*;

use vstd::utf8::encode_utf8;

use crate::text::{
    chars_of, find_exec, find_first, lemma_find_from_first, occurs_at, string_from_range,
    utf8_len_at_most,
};

verus! {

/// The characters of an optional string.
pub open spec fn opt_chars(o: Option<String>) -> Option<Seq<char>> {
    match o {
        Some(s) => Some(s@),
        None => None,
    }
}

/// Copies an optional string.
pub fn clone_opt_string(o: &Option<String>) -> (r: Option<String>)
    ensures
        r == *o,
{
    match o {
        Some(s) => Some(s.clone()),
        None => None,
    }
}

/// Compares two optional strings by content.
pub fn opt_string_eq(a: &Option<String>, b: &Option<String>) -> (r: bool)
    ensures
        r == (opt_chars(*a) == opt_chars(*b)),
{
    match (a, b) {
        (Some(x), Some(y)) => x.eq(y),
        (None, None) => true,
        _ => false,
    }
}

/// A track as reported by a media player, possibly enriched.
#[derive(Debug, PartialEq)]
pub struct Track {
    pub title: String,
    pub artist: String,
    pub album: Option<String>,
    /// Duration in whole seconds.
    pub duration: Option<u64>,
    /// Catalog number (UPC / EAN) when the source exposes one.
    pub upc: Option<String>,
    pub lastfm_album_art_url: Option<String>,
}

/// The content of a [`Track`].
pub struct TrackView {
    pub title: Seq<char>,
    pub artist: Seq<char>,
    pub album: Option<Seq<char>>,
    pub duration: Option<u64>,
    pub upc: Option<Seq<char>>,
    pub lastfm_album_art_url: Option<Seq<char>>,
}

impl View for Track {
    type V = TrackView;

    open spec fn view(&self) -> TrackView {
        TrackView {
            title: self.title@,
            artist: self.artist@,
            album: opt_chars(self.album),
            duration: self.duration,
            upc: opt_chars(self.upc),
            lastfm_album_art_url: opt_chars(self.lastfm_album_art_url),
        }
    }
}

impl Clone for Track {
    fn clone(&self) -> (r: Self)
        ensures
            r == *self,
    {
        Track {
            title: self.title.clone(),
            artist: self.artist.clone(),
            album: clone_opt_string(&self.album),
            duration: self.duration,
            upc: clone_opt_string(&self.upc),
            lastfm_album_art_url: clone_opt_string(&self.lastfm_album_art_url),
        }
    }
}

/// Address prefix of IDAGIO album artwork.
pub open spec fn idagio_art_prefix() -> Seq<char> {
    "https://idagio-images.global.ssl.fastly.net/albums/"@
}

/// Address suffix of IDAGIO album artwork.
pub open spec fn idagio_art_suffix() -> Seq<char> {
    "/main.jpg"@
}

/// How a track is shown in the menu bar: `artist - title`, or the title
/// alone when the artist is empty.
pub open spec fn display_text(artist: Seq<char>, title: Seq<char>) -> Seq<char> {
    if artist.len() == 0 {
        title
    } else {
        artist + " - "@ + title
    }
}

/// Splits `artist - title` at the first `" - "`.
pub open spec fn split_display_text(s: Seq<char>) -> Option<(Seq<char>, Seq<char>)> {
    match find_first(s, " - "@) {
        Some(p) => Some((s.subrange(0, p), s.subrange(p + 3, s.len() as int))),
        None => None,
    }
}

impl Track {
    /// Artwork address for tracks that carry a catalog number.
    pub fn idagio_album_art_url(&self) -> (r: Option<String>)
        ensures
            match self.upc {
                Some(u) => r is Some && r->0@ == idagio_art_prefix() + u@ + idagio_art_suffix(),
                None => r is None,
            },
    {
        match &self.upc {
            Some(u) => {
                let mut s = String::from_str("https://idagio-images.global.ssl.fastly.net/albums/");
                s.append(u.as_str());
                s.append("/main.jpg");
                Some(s)
            },
            None => None,
        }
    }

    /// Compares two tracks field by field.
    pub fn same_track(&self, other: &Track) -> (r: bool)
        ensures
            r == (self@ == other@),
    {
        self.title == other.title && self.artist == other.artist && opt_string_eq(
            &self.album,
            &other.album,
        ) && self.duration == other.duration && opt_string_eq(&self.upc, &other.upc)
            && opt_string_eq(&self.lastfm_album_art_url, &other.lastfm_album_art_url)
    }

    /// The menu bar text of the track.
    pub fn display_string(&self) -> (r: String)
        ensures
            r@ == display_text(self.artist@, self.title@),
    {
        if self.artist.as_str().is_empty() {
            self.title.clone()
        } else {
            let mut s = self.artist.clone();
            s.append(" - ");
            s.append(self.title.as_str());
            s
        }
    }
}

/// Recovers artist and title from a menu bar text `artist - title`.
pub fn parse_display_string(s: &str) -> (r: Option<(String, String)>)
    ensures
        match r {
            Some((a, t)) => split_display_text(s@) == Some((a@, t@)),
            None => split_display_text(s@) is None,
        },
{
    let chars = chars_of(s);
    let sep = chars_of(" - ");
    proof {
        reveal_strlit(" - ");
    }
    assert(sep@ == " - "@);
    assert(sep@.len() == 3);
    match find_exec(&chars, &sep) {
        Some(p) => {
            assert(occurs_at(chars@, sep@, p as int));
            assert(p + sep@.len() <= chars@.len());
            assert(p + 3 <= chars.len());
            let artist = string_from_range(&chars, 0, p);
            let title = string_from_range(&chars, p + 3, chars.len());
            Some((artist, title))
        },
        None => None,
    }
}


/// ListenBrainz only receives scrobbles whose artist name is at least three
/// bytes long.
pub open spec fn listenbrainz_accepts(artist: Seq<char>) -> bool {
    encode_utf8(artist).len() >= 3
}

/// Whether a scrobble with this artist is sent to ListenBrainz.
pub fn listenbrainz_accepts_artist(artist: &str) -> (r: bool)
    ensures
        r == listenbrainz_accepts(artist@),
{
    match utf8_len_at_most(artist, 2) {
        Some(_) => false,
        None => true,
    }
}

/// The menu bar text of a track whose artist is non-empty and holds no
/// hyphen splits back into that artist and title.
pub proof fn lemma_display_text_roundtrip(artist: Seq<char>, title: Seq<char>)
    requires
        artist.len() > 0,
        forall|i: int| 0 <= i < artist.len() ==> artist[i] != '-',
    ensures
        split_display_text(display_text(artist, title)) == Some((artist, title)),
{
    reveal_strlit(" - ");
    let sep = " - "@;
    let s = display_text(artist, title);
    let n = artist.len() as int;
    assert(s.subrange(n, n + 3) =~= sep);
    assert(occurs_at(s, sep, n));
    assert forall|q: int| 0 <= q < n implies !occurs_at(s, sep, q) by {
        if occurs_at(s, sep, q) {
            assert(s.subrange(q, q + 3)[1] == '-');
            assert(s[q + 1] == '-');
            if q + 1 < n {
                assert(s[q + 1] == artist[q + 1]);
            } else {
                assert(s[q + 1] == sep[0]);
            }
        }
    }
    lemma_find_from_first(s, sep, 0);
    assert(find_first(s, sep) == Some(n));
    assert(s.subrange(0, n) =~= artist);
    assert(s.subrange(n + 3, s.len() as int) =~= title);
}

} // verus!
