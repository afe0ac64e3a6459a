//! Metadata enrichment: the MusicBrainz and Last.fm request addresses, the
//! matching of search results against a track's duration, the choice of
//! album art, the album-art cache and the decisions of the enrichment flow.
//! The HTTP exchanges themselves are made by the caller.
use vstd::prelude::*;

use vstd::utf8::encode_utf8;

use crate::config::Config;
use crate::text_cleanup::{char_is_numeric, is_numeric_char};
use crate::track::{clone_opt_string, opt_chars, Track, TrackView};

verus! {

/// Tolerance in milliseconds when matching a track by duration.
pub const DURATION_TOLERANCE_MS: u64 = 3000;

/// A track of a MusicBrainz release.
#[derive(Debug)]
pub struct MBTrack {
    pub title: Option<String>,
    /// Duration in milliseconds.
    pub length: Option<u64>,
}

/// A medium (disc) of a MusicBrainz release.
#[derive(Debug)]
pub struct MBMedia {
    pub track_count: Option<u32>,
    pub tracks: Option<Vec<MBTrack>>,
}

/// A MusicBrainz release.
#[derive(Debug)]
pub struct MBRelease {
    pub title: Option<String>,
    pub id: Option<String>,
    pub media: Option<Vec<MBMedia>>,
}

/// A MusicBrainz release search result.
#[derive(Debug)]
pub struct MBReleaseSearchResult {
    pub releases: Option<Vec<MBRelease>>,
}

/// Absolute value.
pub open spec fn abs(x: int) -> int {
    if x < 0 {
        -x
    } else {
        x
    }
}

/// A track matches when its length is within the tolerance and it has a
/// title.
pub open spec fn track_matches(t: MBTrack, duration_ms: u64) -> bool {
    &&& t.length matches Some(l)
    &&& abs(l - duration_ms) <= DURATION_TOLERANCE_MS
    &&& t.title is Some
}

/// Title of the first matching track.
pub open spec fn match_in_tracks(ts: Seq<MBTrack>, duration_ms: u64) -> Option<Seq<char>>
    decreases ts.len(),
{
    if ts.len() == 0 {
        None
    } else if track_matches(ts[0], duration_ms) {
        Some(ts[0].title->0@)
    } else {
        match_in_tracks(ts.drop_first(), duration_ms)
    }
}

/// Title of the first matching track of a medium.
pub open spec fn match_in_medium(m: MBMedia, duration_ms: u64) -> Option<Seq<char>> {
    match m.tracks {
        Some(ts) => match_in_tracks(ts@, duration_ms),
        None => None,
    }
}

/// Title of the first matching track over the media, in order.
pub open spec fn match_in_media(ms: Seq<MBMedia>, duration_ms: u64) -> Option<Seq<char>>
    decreases ms.len(),
{
    if ms.len() == 0 {
        None
    } else {
        match match_in_medium(ms[0], duration_ms) {
            Some(t) => Some(t),
            None => match_in_media(ms.drop_first(), duration_ms),
        }
    }
}

/// Title of the first matching track of a release that has a title.
pub open spec fn match_in_release(r: MBRelease, duration_ms: u64) -> Option<Seq<char>> {
    if r.title is Some {
        match r.media {
            Some(ms) => match_in_media(ms@, duration_ms),
            None => None,
        }
    } else {
        None
    }
}

/// `(album, track)` titles of the first release, in order, holding a
/// matching track.
pub open spec fn match_in_releases(rs: Seq<MBRelease>, duration_ms: u64) -> Option<(Seq<char>, Seq<char>)>
    decreases rs.len(),
{
    if rs.len() == 0 {
        None
    } else {
        match match_in_release(rs[0], duration_ms) {
            Some(t) => Some((rs[0].title->0@, t)),
            None => match_in_releases(rs.drop_first(), duration_ms),
        }
    }
}

/// `(album, track)` titles that a search result gives for a track of
/// `duration_secs` seconds.
pub open spec fn release_track_match(res: MBReleaseSearchResult, duration_secs: u64) -> Option<(Seq<char>, Seq<char>)> {
    match res.releases {
        Some(rs) => match_in_releases(rs@, (duration_secs * 1000) as u64),
        None => None,
    }
}

/// Whether a track matches the duration (see [`track_matches`]).
fn track_matches_exec(t: &MBTrack, duration_ms: u64) -> (r: bool)
    ensures
        r == track_matches(*t, duration_ms),
{
    match t.length {
        Some(l) => {
            let within = if l >= duration_ms {
                l - duration_ms <= DURATION_TOLERANCE_MS
            } else {
                duration_ms - l <= DURATION_TOLERANCE_MS
            };
            within && t.title.is_some()
        },
        None => false,
    }
}

/// Title of the first matching track.
fn match_in_tracks_exec(ts: &Vec<MBTrack>, duration_ms: u64) -> (r: Option<String>)
    ensures
        opt_chars(r) == match_in_tracks(ts@, duration_ms),
{
    let mut i: usize = 0;
    assert(ts@.subrange(0, ts@.len() as int) =~= ts@);
    while i < ts.len()
        invariant
            i <= ts.len(),
            match_in_tracks(ts@, duration_ms) == match_in_tracks(ts@.subrange(i as int, ts@.len() as int), duration_ms),
        decreases ts.len() - i,
    {
        let ghost rest = ts@.subrange(i as int, ts@.len() as int);
        assert(rest[0] == ts@[i as int]);
        assert(rest.drop_first() =~= ts@.subrange(i + 1, ts@.len() as int));
        if track_matches_exec(&ts[i], duration_ms) {
            match &ts[i].title {
                Some(t) => {
                    return Some(t.clone());
                },
                None => {},
            }
        }
        i = i + 1;
    }
    None
}

/// Title of the first matching track over the media.
fn match_in_media_exec(ms: &Vec<MBMedia>, duration_ms: u64) -> (r: Option<String>)
    ensures
        opt_chars(r) == match_in_media(ms@, duration_ms),
{
    let mut i: usize = 0;
    assert(ms@.subrange(0, ms@.len() as int) =~= ms@);
    while i < ms.len()
        invariant
            i <= ms.len(),
            match_in_media(ms@, duration_ms) == match_in_media(ms@.subrange(i as int, ms@.len() as int), duration_ms),
        decreases ms.len() - i,
    {
        let ghost rest = ms@.subrange(i as int, ms@.len() as int);
        assert(rest[0] == ms@[i as int]);
        assert(rest.drop_first() =~= ms@.subrange(i + 1, ms@.len() as int));
        match &ms[i].tracks {
            Some(ts) => {
                let found = match_in_tracks_exec(ts, duration_ms);
                if found.is_some() {
                    return found;
                }
            },
            None => {},
        }
        i = i + 1;
    }
    None
}

/// `(album, track)` titles of the first release holding a track that
/// matches `duration_secs`; releases without a title are skipped.
pub fn match_release_track(res: &MBReleaseSearchResult, duration_secs: u64) -> (r: Option<(String, String)>)
    requires
        duration_secs * 1000 <= u64::MAX,
    ensures
        match r {
            Some(x) => release_track_match(*res, duration_secs) == Some((x.0@, x.1@)),
            None => release_track_match(*res, duration_secs) is None,
        },
{
    let duration_ms = duration_secs * 1000;
    let rs = match &res.releases {
        Some(rs) => rs,
        None => return None,
    };
    let mut i: usize = 0;
    assert(rs@.subrange(0, rs@.len() as int) =~= rs@);
    while i < rs.len()
        invariant
            i <= rs.len(),
            duration_ms == duration_secs * 1000,
            res.releases == Some(*rs),
            match_in_releases(rs@, duration_ms) == match_in_releases(rs@.subrange(i as int, rs@.len() as int), duration_ms),
        decreases rs.len() - i,
    {
        let ghost rest = rs@.subrange(i as int, rs@.len() as int);
        assert(rest[0] == rs@[i as int]);
        assert(rest.drop_first() =~= rs@.subrange(i + 1, rs@.len() as int));
        let release = &rs[i];
        match &release.title {
            Some(album_title) => {
                match &release.media {
                    Some(ms) => {
                        assert(rs@[i as int].media matches Some(ms2) && ms2 == *ms);
                        let found = match_in_media_exec(ms, duration_ms);
                        match found {
                            Some(track_title) => {
                                return Some((album_title.clone(), track_title));
                            },
                            None => {},
                        }
                    },
                    None => {},
                }
            },
            None => {},
        }
        i = i + 1;
    }
    None
}


/// Base address of the MusicBrainz web service.
pub open spec fn musicbrainz_release_query_prefix() -> Seq<char> {
    "https://musicbrainz.org/ws/2/release?query="@
}

/// Query options of the MusicBrainz release search.
pub open spec fn musicbrainz_release_query_suffix() -> Seq<char> {
    "&fmt=json&limit=5&inc=recordings"@
}

/// Whether a byte is left as is by percent-encoding: ASCII letters, digits
/// and `-`, `.`, `_`, `~`.
pub open spec fn is_unreserved_byte(b: u8) -> bool {
    ||| 0x30 <= b <= 0x39
    ||| 0x41 <= b <= 0x5A
    ||| 0x61 <= b <= 0x7A
    ||| b == 0x2D
    ||| b == 0x2E
    ||| b == 0x5F
    ||| b == 0x7E
}

/// Upper-case hexadecimal digit of a value below 16.
pub open spec fn hex_digit_char(d: u8) -> char {
    if d < 10 {
        (0x30 + d) as char
    } else {
        (0x41 + d - 10) as char
    }
}

/// Percent-encoding of a byte sequence: unreserved bytes are kept, every
/// other byte becomes `%` and two upper-case hexadecimal digits.
pub open spec fn percent_encode(bytes: Seq<u8>) -> Seq<char>
    decreases bytes.len(),
{
    if bytes.len() == 0 {
        Seq::empty()
    } else {
        let b = bytes[0];
        (if is_unreserved_byte(b) {
            seq![b as char]
        } else {
            seq!['%', hex_digit_char(b / 16), hex_digit_char(b % 16)]
        }) + percent_encode(bytes.drop_first())
    }
}

/// Calls `urlencoding::encode`. The contract claims what its documentation
/// and source state: every UTF-8 byte except ASCII alphanumerics and `-`,
/// `_`, `.`, `~` is written `%XX` with upper-case hexadecimal digits.
#[verifier::external_body]
fn url_encode(s: &str) -> (r: String)
    ensures
        r@ == percent_encode(encode_utf8(s@)),
{
    urlencoding::encode(s).into_owned()
}

/// `s` with every `"` preceded by a backslash (as `str::replace('"', "\\\"")`).
pub open spec fn escape_quotes(s: Seq<char>) -> Seq<char>
    decreases s.len(),
{
    if s.len() == 0 {
        Seq::empty()
    } else {
        escape_quotes(s.drop_last()) + if s.last() == '"' {
            seq!['\\', '"']
        } else {
            seq![s.last()]
        }
    }
}

/// `s` with every `"` preceded by a backslash.
pub fn escape_quotes_exec(s: &str) -> (r: String)
    ensures
        r@ == escape_quotes(s@),
{
    let chars = crate::text::chars_of(s);
    let mut r = String::new();
    let mut i: usize = 0;
    while i < chars.len()
        invariant
            i <= chars.len(),
            r@ == escape_quotes(chars@.take(i as int)),
        decreases chars.len() - i,
    {
        assert(chars@.take(i + 1).drop_last() =~= chars@.take(i as int));
        if chars[i] == '"' {
            crate::text::string_push(&mut r, '\\');
            crate::text::string_push(&mut r, '"');
        } else {
            crate::text::string_push(&mut r, chars[i]);
        }
        assert(r@ =~= escape_quotes(chars@.take(i + 1)));
        i = i + 1;
    }
    assert(chars@.take(chars.len() as int) =~= chars@);
    r
}

/// Address of the MusicBrainz release search for a barcode.
pub open spec fn barcode_search_address(barcode: Seq<char>) -> Seq<char> {
    musicbrainz_release_query_prefix() + percent_encode(encode_utf8("barcode:"@ + barcode))
        + musicbrainz_release_query_suffix()
}

/// Address of the MusicBrainz release search for an album name.
pub open spec fn album_search_address(album: Seq<char>) -> Seq<char> {
    musicbrainz_release_query_prefix() + percent_encode(
        encode_utf8("release:\""@ + escape_quotes(album) + "\""@),
    ) + musicbrainz_release_query_suffix()
}

/// Address of the Last.fm `album.getinfo` call.
pub open spec fn lastfm_album_info_address(artist: Seq<char>, album: Seq<char>, api_key: Seq<char>) -> Seq<char> {
    "https://ws.audioscrobbler.com/2.0/?method=album.getinfo&artist="@ + percent_encode(
        encode_utf8(artist),
    ) + "&album="@ + percent_encode(encode_utf8(album)) + "&api_key="@ + api_key
        + "&format=json"@
}

/// Address of the MusicBrainz release search for a barcode.
pub fn barcode_search_url(barcode: &str) -> (r: String)
    ensures
        r@ == barcode_search_address(barcode@),
{
    let mut query = String::from_str("barcode:");
    query.append(barcode);
    let mut url = String::from_str("https://musicbrainz.org/ws/2/release?query=");
    let encoded = url_encode(query.as_str());
    url.append(encoded.as_str());
    url.append("&fmt=json&limit=5&inc=recordings");
    url
}

/// Address of the MusicBrainz release search for an album name.
pub fn album_search_url(album_name: &str) -> (r: String)
    ensures
        r@ == album_search_address(album_name@),
{
    let mut query = String::from_str("release:\"");
    let escaped = escape_quotes_exec(album_name);
    query.append(escaped.as_str());
    query.append("\"");
    let mut url = String::from_str("https://musicbrainz.org/ws/2/release?query=");
    let encoded = url_encode(query.as_str());
    url.append(encoded.as_str());
    url.append("&fmt=json&limit=5&inc=recordings");
    url
}

/// Address of the Last.fm `album.getinfo` call for an artist and album.
pub fn lastfm_album_info_url(artist: &str, album: &str, api_key: &str) -> (r: String)
    ensures
        r@ == lastfm_album_info_address(artist@, album@, api_key@),
{
    let mut url = String::from_str("https://ws.audioscrobbler.com/2.0/?method=album.getinfo&artist=");
    let a = url_encode(artist);
    url.append(a.as_str());
    url.append("&album=");
    let b = url_encode(album);
    url.append(b.as_str());
    url.append("&api_key=");
    url.append(api_key);
    url.append("&format=json");
    url
}


/// An image entry of a Last.fm album.
#[derive(Debug)]
pub struct LastFmImage {
    pub size: Option<String>,
    pub url: Option<String>,
}

/// The album part of a Last.fm `album.getinfo` response.
#[derive(Debug)]
pub struct LastFmAlbum {
    pub image: Option<Vec<LastFmImage>>,
}

/// A Last.fm `album.getinfo` response.
#[derive(Debug)]
pub struct LastFmAlbumResponse {
    pub album: Option<LastFmAlbum>,
}

/// The image has the given size and a non-empty address.
pub open spec fn image_has_size(img: LastFmImage, size: Seq<char>) -> bool {
    &&& img.size matches Some(s)
    &&& s@ == size
    &&& img.url matches Some(u)
    &&& u@.len() > 0
}

/// The image has a non-empty address.
pub open spec fn image_has_url(img: LastFmImage) -> bool {
    &&& img.url matches Some(u)
    &&& u@.len() > 0
}

/// Address of the first image of the given size with a non-empty address.
pub open spec fn first_image_of_size(imgs: Seq<LastFmImage>, size: Seq<char>) -> Option<Seq<char>>
    decreases imgs.len(),
{
    if imgs.len() == 0 {
        None
    } else if image_has_size(imgs[0], size) {
        Some(imgs[0].url->0@)
    } else {
        first_image_of_size(imgs.drop_first(), size)
    }
}

/// Address of the first image with a non-empty address.
pub open spec fn first_image(imgs: Seq<LastFmImage>) -> Option<Seq<char>>
    decreases imgs.len(),
{
    if imgs.len() == 0 {
        None
    } else if image_has_url(imgs[0]) {
        Some(imgs[0].url->0@)
    } else {
        first_image(imgs.drop_first())
    }
}

/// The album art a Last.fm response offers: the first `large` image, else
/// the first `extralarge` one, else the first image with an address.
pub open spec fn album_art_choice(resp: LastFmAlbumResponse) -> Option<Seq<char>> {
    match resp.album {
        Some(a) => match a.image {
            Some(imgs) => match first_image_of_size(imgs@, "large"@) {
                Some(u) => Some(u),
                None => match first_image_of_size(imgs@, "extralarge"@) {
                    Some(u) => Some(u),
                    None => first_image(imgs@),
                },
            },
            None => None,
        },
        None => None,
    }
}

/// Address of the first image of the given size with a non-empty address.
fn first_image_of_size_exec(imgs: &Vec<LastFmImage>, size: &str) -> (r: Option<String>)
    ensures
        opt_chars(r) == first_image_of_size(imgs@, size@),
{
    let mut i: usize = 0;
    assert(imgs@.subrange(0, imgs@.len() as int) =~= imgs@);
    while i < imgs.len()
        invariant
            i <= imgs.len(),
            first_image_of_size(imgs@, size@) == first_image_of_size(imgs@.subrange(i as int, imgs@.len() as int), size@),
        decreases imgs.len() - i,
    {
        let ghost rest = imgs@.subrange(i as int, imgs@.len() as int);
        assert(rest[0] == imgs@[i as int]);
        assert(rest.drop_first() =~= imgs@.subrange(i + 1, imgs@.len() as int));
        match (&imgs[i].size, &imgs[i].url) {
            (Some(s), Some(u)) => {
                if crate::text::str_equal(s.as_str(), size) && !u.as_str().is_empty() {
                    return Some(u.clone());
                }
            },
            _ => {},
        }
        i = i + 1;
    }
    None
}

/// Address of the first image with a non-empty address.
fn first_image_exec(imgs: &Vec<LastFmImage>) -> (r: Option<String>)
    ensures
        opt_chars(r) == first_image(imgs@),
{
    let mut i: usize = 0;
    assert(imgs@.subrange(0, imgs@.len() as int) =~= imgs@);
    while i < imgs.len()
        invariant
            i <= imgs.len(),
            first_image(imgs@) == first_image(imgs@.subrange(i as int, imgs@.len() as int)),
        decreases imgs.len() - i,
    {
        let ghost rest = imgs@.subrange(i as int, imgs@.len() as int);
        assert(rest[0] == imgs@[i as int]);
        assert(rest.drop_first() =~= imgs@.subrange(i + 1, imgs@.len() as int));
        match &imgs[i].url {
            Some(u) => {
                if !u.as_str().is_empty() {
                    return Some(u.clone());
                }
            },
            None => {},
        }
        i = i + 1;
    }
    None
}

/// The album art a Last.fm response offers (see [`album_art_choice`]).
pub fn select_album_art(resp: &LastFmAlbumResponse) -> (r: Option<String>)
    ensures
        opt_chars(r) == album_art_choice(*resp),
{
    match &resp.album {
        Some(a) => match &a.image {
            Some(imgs) => {
                let large = first_image_of_size_exec(imgs, "large");
                if large.is_some() {
                    return large;
                }
                let extra = first_image_of_size_exec(imgs, "extralarge");
                if extra.is_some() {
                    return extra;
                }
                first_image_exec(imgs)
            },
            None => None,
        },
        None => None,
    }
}


/// A cached album-art lookup: artist, album and the address found (`None`
/// when the lookup found no art).
pub type ArtCacheEntry = (String, String, Option<String>);

/// The `(artist, album)` key of a cache entry.
pub open spec fn entry_key(e: ArtCacheEntry) -> (Seq<char>, Seq<char>) {
    (e.0@, e.1@)
}

/// The map a list of entries denotes; a later entry for a key replaces an
/// earlier one.
pub open spec fn entries_map(s: Seq<ArtCacheEntry>) -> Map<(Seq<char>, Seq<char>), Option<Seq<char>>>
    decreases s.len(),
{
    if s.len() == 0 {
        Map::empty()
    } else {
        entries_map(s.drop_last()).insert(entry_key(s.last()), opt_chars(s.last().2))
    }
}

/// Replacing the last entry for a key replaces the key's value.
proof fn lemma_update_last_occurrence(s: Seq<ArtCacheEntry>, i: int, e: ArtCacheEntry)
    requires
        0 <= i < s.len(),
        entry_key(s[i]) == entry_key(e),
        forall|j: int| i < j < s.len() ==> entry_key(#[trigger] s[j]) != entry_key(e),
    ensures
        entries_map(s.update(i, e)) == entries_map(s).insert(entry_key(e), opt_chars(e.2)),
    decreases s.len(),
{
    let u = s.update(i, e);
    if i == s.len() - 1 {
        assert(u.drop_last() =~= s.drop_last());
        assert(entries_map(u) =~= entries_map(s).insert(entry_key(e), opt_chars(e.2)));
    } else {
        assert(u.drop_last() =~= s.drop_last().update(i, e));
        assert(entry_key(s[s.len() - 1]) != entry_key(e));
        lemma_update_last_occurrence(s.drop_last(), i, e);
        assert(entries_map(u) =~= entries_map(s).insert(entry_key(e), opt_chars(e.2)));
    }
}

/// Cache of Last.fm album-art lookups keyed by `(artist, album)`, so that
/// the same album is not asked for twice.
pub struct AlbumArtCache {
    entries: Vec<ArtCacheEntry>,
}

impl View for AlbumArtCache {
    type V = Map<(Seq<char>, Seq<char>), Option<Seq<char>>>;

    closed spec fn view(&self) -> Self::V {
        entries_map(self.entries@)
    }
}

impl AlbumArtCache {
    /// An empty cache.
    pub fn new() -> (r: Self)
        ensures
            r@ == Map::<(Seq<char>, Seq<char>), Option<Seq<char>>>::empty(),
    {
        AlbumArtCache { entries: Vec::new() }
    }

    /// Index of the last entry for the key, if any.
    fn find(&self, artist: &str, album: &str) -> (r: Option<usize>)
        ensures
            match r {
                Some(i) => {
                    &&& i < self.entries@.len()
                    &&& entry_key(self.entries@[i as int]) == (artist@, album@)
                    &&& forall|j: int| i < j < self.entries@.len() ==> entry_key(#[trigger] self.entries@[j]) != (artist@, album@)
                    &&& self@.contains_key((artist@, album@))
                    &&& self@[(artist@, album@)] == opt_chars(self.entries@[i as int].2)
                },
                None => !self@.contains_key((artist@, album@)),
            },
    {
        let ghost k = (artist@, album@);
        let ghost s = self.entries@;
        let mut j: usize = self.entries.len();
        assert(s.take(s.len() as int) =~= s);
        while j > 0
            invariant
                j <= s.len(),
                s == self.entries@,
                k == (artist@, album@),
                forall|m: int| j <= m < s.len() ==> entry_key(#[trigger] s[m]) != k,
                entries_map(s).contains_key(k) == entries_map(s.take(j as int)).contains_key(k),
                entries_map(s).contains_key(k) ==> entries_map(s)[k] == entries_map(s.take(j as int))[k],
            decreases j,
        {
            let e = &self.entries[j - 1];
            assert(s.take(j as int).drop_last() =~= s.take(j - 1));
            assert(s.take(j as int).last() == s[j - 1]);
            if crate::text::str_equal(e.0.as_str(), artist) && crate::text::str_equal(e.1.as_str(), album) {
                return Some(j - 1);
            }
            j = j - 1;
        }
        None
    }

    /// The cached result for `(artist, album)`, if the key is cached.
    pub fn get(&self, artist: &str, album: &str) -> (r: Option<Option<String>>)
        ensures
            match r {
                Some(v) => self@.contains_key((artist@, album@)) && self@[(artist@, album@)] == opt_chars(v),
                None => !self@.contains_key((artist@, album@)),
            },
    {
        match self.find(artist, album) {
            Some(i) => Some(crate::track::clone_opt_string(&self.entries[i].2)),
            None => None,
        }
    }

    /// Caches `value` for `(artist, album)`, replacing an earlier value.
    pub fn insert(&mut self, artist: String, album: String, value: Option<String>)
        ensures
            final(self)@ == old(self)@.insert((artist@, album@), opt_chars(value)),
    {
        match self.find(artist.as_str(), album.as_str()) {
            Some(i) => {
                let ghost e: ArtCacheEntry = (artist, album, value);
                proof {
                    lemma_update_last_occurrence(self.entries@, i as int, e);
                }
                self.entries.set(i, (artist, album, value));
            },
            None => {
                let ghost old_entries = self.entries@;
                self.entries.push((artist, album, value));
                assert(self.entries@.drop_last() =~= old_entries);
            },
        }
    }
}

/// Helper to cache a lookup result under its `(artist, album)` key.
pub fn return_and_cache(cache: &mut AlbumArtCache, key: (String, String), value: Option<String>)
    ensures
        final(cache)@ == old(cache)@.insert((key.0@, key.1@), opt_chars(value)),
{
    cache.insert(key.0, key.1, value);
}


/// What the Last.fm album-art lookup needs to do next.
#[derive(Debug)]
pub enum ArtLookup {
    /// Artist, album or API key is empty: there is no art to look up.
    Skip,
    /// The lookup was made before; its cached result.
    Cached(Option<String>),
    /// Ask Last.fm at this address.
    Fetch(String),
}

/// Whether any of the lookup inputs is empty.
pub open spec fn art_lookup_skipped(artist: Seq<char>, album: Seq<char>, api_key: Seq<char>) -> bool {
    artist.len() == 0 || album.len() == 0 || api_key.len() == 0
}

/// The content of an [`ArtLookup`].
pub enum ArtLookupStep {
    Skip,
    Cached(Option<Seq<char>>),
    Fetch(Seq<char>),
}

impl View for ArtLookup {
    type V = ArtLookupStep;

    open spec fn view(&self) -> ArtLookupStep {
        match self {
            ArtLookup::Skip => ArtLookupStep::Skip,
            ArtLookup::Cached(v) => ArtLookupStep::Cached(opt_chars(*v)),
            ArtLookup::Fetch(u) => ArtLookupStep::Fetch(u@),
        }
    }
}

/// What the lookup does for a cache holding `cache`.
pub open spec fn art_lookup_step(
    cache: Map<(Seq<char>, Seq<char>), Option<Seq<char>>>,
    artist: Seq<char>,
    album: Seq<char>,
    api_key: Seq<char>,
) -> ArtLookupStep {
    if art_lookup_skipped(artist, album, api_key) {
        ArtLookupStep::Skip
    } else if cache.contains_key((artist, album)) {
        ArtLookupStep::Cached(cache[(artist, album)])
    } else {
        ArtLookupStep::Fetch(lastfm_album_info_address(artist, album, api_key))
    }
}

/// First step of fetching Last.fm album art: skip, answer from the cache,
/// or name the address to ask.
pub fn lastfm_art_lookup(cache: &AlbumArtCache, artist: &str, album: &str, api_key: &str) -> (r: ArtLookup)
    ensures
        r@ == art_lookup_step(cache@, artist@, album@, api_key@),
{
    if artist.is_empty() || album.is_empty() || api_key.is_empty() {
        return ArtLookup::Skip;
    }
    match cache.get(artist, album) {
        Some(v) => ArtLookup::Cached(v),
        None => ArtLookup::Fetch(lastfm_album_info_url(artist, album, api_key)),
    }
}

/// Last step of fetching Last.fm album art: `response` is the decoded
/// answer, or `None` when Last.fm answered with an error status. The chosen
/// address (or its absence) is cached and returned.
pub fn lastfm_art_store(
    cache: &mut AlbumArtCache,
    artist: &str,
    album: &str,
    response: Option<&LastFmAlbumResponse>,
) -> (r: Option<String>)
    ensures
        opt_chars(r) == match response {
            Some(resp) => album_art_choice(*resp),
            None => None,
        },
        final(cache)@ == old(cache)@.insert((artist@, album@), opt_chars(r)),
{
    let chosen = match response {
        Some(resp) => select_album_art(resp),
        None => None,
    };
    return_and_cache(
        cache,
        (String::from_str(artist), String::from_str(album)),
        crate::track::clone_opt_string(&chosen),
    );
    chosen
}


/// The next step of enriching a track.
#[derive(Debug)]
pub enum EnrichAction {
    /// Nothing more to do.
    Done,
    /// Search MusicBrainz by barcode (see [`barcode_search_url`]) and match
    /// a track of this duration.
    SearchBarcode { barcode: String, duration_secs: u64 },
    /// Search MusicBrainz by album name (see [`album_search_url`]) and match
    /// a track of this duration.
    SearchAlbum { album: String, duration_secs: u64 },
    /// Fetch Last.fm album art for this artist and album.
    FetchLastFmArt { artist: String, album: String, api_key: String },
}

/// The content of an [`EnrichAction`].
pub enum EnrichStep {
    Done,
    SearchBarcode(Seq<char>, u64),
    SearchAlbum(Seq<char>, u64),
    FetchLastFmArt(Seq<char>, Seq<char>, Seq<char>),
}

impl View for EnrichAction {
    type V = EnrichStep;

    open spec fn view(&self) -> EnrichStep {
        match self {
            EnrichAction::Done => EnrichStep::Done,
            EnrichAction::SearchBarcode { barcode, duration_secs } => EnrichStep::SearchBarcode(
                barcode@,
                *duration_secs,
            ),
            EnrichAction::SearchAlbum { album, duration_secs } => EnrichStep::SearchAlbum(
                album@,
                *duration_secs,
            ),
            EnrichAction::FetchLastFmArt { artist, album, api_key } => EnrichStep::FetchLastFmArt(
                artist@,
                album@,
                api_key@,
            ),
        }
    }
}

/// The Last.fm API key when Last.fm is configured and enabled.
pub open spec fn lastfm_api_key(config: Option<Config>) -> Option<Seq<char>> {
    match config {
        Some(c) => match c.lastfm {
            Some(l) => if l.enabled {
                Some(l.api_key@)
            } else {
                None
            },
            None => None,
        },
        None => None,
    }
}

/// A catalog number that looks like a real barcode: 12 to 14 bytes long,
/// all numeric.
pub open spec fn is_barcode(u: Seq<char>) -> bool {
    &&& 12 <= encode_utf8(u).len() <= 14
    &&& forall|i: int| 0 <= i < u.len() ==> char_is_numeric(#[trigger] u[i])
}

/// Search by album name when the track has a non-empty album, else stop.
pub open spec fn album_fallback(t: TrackView, duration_secs: u64) -> EnrichStep {
    match t.album {
        Some(a) => if a.len() > 0 {
            EnrichStep::SearchAlbum(a, duration_secs)
        } else {
            EnrichStep::Done
        },
        None => EnrichStep::Done,
    }
}

/// First step of enrichment: nothing without a duration; a barcode search
/// when the catalog number looks like a barcode; else an album search.
pub open spec fn enrich_first_step(t: TrackView) -> EnrichStep {
    match t.duration {
        None => EnrichStep::Done,
        Some(d) => match t.upc {
            Some(u) => if is_barcode(u) {
                EnrichStep::SearchBarcode(u, d)
            } else {
                album_fallback(t, d)
            },
            None => album_fallback(t, d),
        },
    }
}

/// The track with the album and title that MusicBrainz identified.
pub open spec fn identified(t: TrackView, album: Seq<char>, title: Seq<char>) -> TrackView {
    TrackView { album: Some(album), title: title, ..t }
}

/// Fetch Last.fm art for the identified album when Last.fm is enabled.
pub open spec fn art_step(artist: Seq<char>, album: Seq<char>, key: Option<Seq<char>>) -> EnrichStep {
    match key {
        Some(k) => EnrichStep::FetchLastFmArt(artist, album, k),
        None => EnrichStep::Done,
    }
}

/// Whether `s` is a barcode (see [`is_barcode`]).
pub fn looks_like_barcode(s: &str) -> (r: bool)
    ensures
        r == is_barcode(s@),
{
    let bytes = match crate::text::utf8_len_at_most(s, 14) {
        Some(n) => n,
        None => return false,
    };
    if bytes < 12 {
        return false;
    }
    let chars = crate::text::chars_of(s);
    let mut k: usize = 0;
    while k < chars.len()
        invariant
            chars@ == s@,
            k <= chars.len(),
            12 <= encode_utf8(s@).len() <= 14,
            forall|j: int| 0 <= j < k ==> char_is_numeric(#[trigger] chars@[j]),
        decreases chars.len() - k,
    {
        if !is_numeric_char(chars[k]) {
            return false;
        }
        k = k + 1;
    }
    true
}

/// The Last.fm API key when Last.fm is configured and enabled.
fn lastfm_key_of(config: Option<&Config>) -> (r: Option<String>)
    ensures
        opt_chars(r) == lastfm_api_key(match config {
            Some(c) => Some(*c),
            None => None,
        }),
{
    match config {
        Some(cfg) => match &cfg.lastfm {
            Some(l) => if l.enabled {
                Some(l.api_key.clone())
            } else {
                None
            },
            None => None,
        },
        None => None,
    }
}

/// Album search for a track with a non-empty album, else nothing.
fn album_fallback_action(track: &Track, duration_secs: u64) -> (r: EnrichAction)
    ensures
        r@ == album_fallback(track@, duration_secs),
{
    match &track.album {
        Some(a) => if !a.as_str().is_empty() {
            EnrichAction::SearchAlbum { album: a.clone(), duration_secs }
        } else {
            EnrichAction::Done
        },
        None => EnrichAction::Done,
    }
}

/// First step of enriching a track from MusicBrainz.
pub fn enrich_start(track: &Track) -> (r: EnrichAction)
    ensures
        r@ == enrich_first_step(track@),
{
    let duration = match track.duration {
        Some(d) => d,
        None => return EnrichAction::Done,
    };
    match &track.upc {
        Some(upc) => {
            if looks_like_barcode(upc.as_str()) {
                return EnrichAction::SearchBarcode { barcode: upc.clone(), duration_secs: duration };
            }
        },
        None => {},
    }
    album_fallback_action(track, duration)
}

/// Step after the barcode search: `found` holds the `(album, track)` titles
/// it matched, `None` when it matched nothing or failed. A match updates
/// the track and leads to the Last.fm art lookup; otherwise the album search
/// is tried.
pub fn enrich_after_barcode(
    track: &mut Track,
    duration_secs: u64,
    found: Option<(String, String)>,
    config: Option<&Config>,
) -> (r: EnrichAction)
    ensures
        match found {
            Some(f) => {
                &&& final(track)@ == identified(old(track)@, f.0@, f.1@)
                &&& r@ == art_step(old(track)@.artist, f.0@, lastfm_api_key(match config { Some(c) => Some(*c), None => None }))
            },
            None => {
                &&& final(track)@ == old(track)@
                &&& r@ == album_fallback(old(track)@, duration_secs)
            },
        },
{
    match found {
        Some((album, track_title)) => {
            track.album = Some(album.clone());
            track.title = track_title;
            match lastfm_key_of(config) {
                Some(key) => EnrichAction::FetchLastFmArt {
                    artist: track.artist.clone(),
                    album,
                    api_key: key,
                },
                None => EnrichAction::Done,
            }
        },
        None => album_fallback_action(track, duration_secs),
    }
}

/// Step after the album search: a match updates the track; the Last.fm art
/// lookup follows unless the track already has IDAGIO artwork (a catalog
/// number).
pub fn enrich_after_album_search(
    track: &mut Track,
    found: Option<(String, String)>,
    config: Option<&Config>,
) -> (r: EnrichAction)
    ensures
        match found {
            Some(f) => {
                &&& final(track)@ == identified(old(track)@, f.0@, f.1@)
                &&& r@ == if old(track)@.upc is Some {
                    EnrichStep::Done
                } else {
                    art_step(old(track)@.artist, f.0@, lastfm_api_key(match config { Some(c) => Some(*c), None => None }))
                }
            },
            None => final(track)@ == old(track)@ && r@ == EnrichStep::Done,
        },
{
    match found {
        Some((album, track_title)) => {
            track.album = Some(album.clone());
            track.title = track_title;
            if track.idagio_album_art_url().is_some() {
                return EnrichAction::Done;
            }
            match lastfm_key_of(config) {
                Some(key) => EnrichAction::FetchLastFmArt {
                    artist: track.artist.clone(),
                    album,
                    api_key: key,
                },
                None => EnrichAction::Done,
            }
        },
        None => EnrichAction::Done,
    }
}

/// Records Last.fm album art found for the track.
pub fn enrich_apply_art(track: &mut Track, art: Option<String>)
    ensures
        final(track)@ == match art {
            Some(u) => TrackView { lastfm_album_art_url: Some(u@), ..old(track)@ },
            None => old(track)@,
        },
{
    match art {
        Some(url) => {
            track.lastfm_album_art_url = Some(url);
        },
        None => {},
    }
}


/// What the caller learned since the previous step of enrichment.
#[derive(Debug)]
pub enum EnrichEvent {
    /// Enrichment begins.
    Start,
    /// The barcode search for a track of `duration_secs` seconds ended with
    /// the `(album, track)` titles it matched, or `None` when it matched
    /// nothing or failed.
    BarcodeSearched { duration_secs: u64, found: Option<(String, String)> },
    /// The album-name search ended with the titles it matched, or `None`.
    AlbumSearched { found: Option<(String, String)> },
    /// The Last.fm album-art lookup ended with the address it found, or `None`.
    ArtFetched { art: Option<String> },
}

/// The Last.fm API key of an optional configuration, when Last.fm is enabled.
pub open spec fn config_api_key(config: Option<&Config>) -> Option<Seq<char>> {
    match config {
        Some(c) => lastfm_api_key(Some(*c)),
        None => None,
    }
}

/// The track and the next step after `event`, for a track `t` and the
/// Last.fm key `key`.
pub open spec fn enrich_transition(t: TrackView, key: Option<Seq<char>>, event: EnrichEvent) -> (TrackView, EnrichStep) {
    match event {
        EnrichEvent::Start => (t, enrich_first_step(t)),
        EnrichEvent::BarcodeSearched { duration_secs, found } => match found {
            Some(f) => (identified(t, f.0@, f.1@), art_step(t.artist, f.0@, key)),
            None => (t, album_fallback(t, duration_secs)),
        },
        EnrichEvent::AlbumSearched { found } => match found {
            Some(f) => (
                identified(t, f.0@, f.1@),
                if t.upc is Some {
                    EnrichStep::Done
                } else {
                    art_step(t.artist, f.0@, key)
                },
            ),
            None => (t, EnrichStep::Done),
        },
        EnrichEvent::ArtFetched { art } => (
            match art {
                Some(u) => TrackView { lastfm_album_art_url: Some(u@), ..t },
                None => t,
            },
            EnrichStep::Done,
        ),
    }
}

/// Try to enrich a track with album and track name from MusicBrainz, and
/// with Last.fm album art when Last.fm is configured: one step of the flow.
/// The caller performs the returned action (an HTTP lookup) and hands its
/// outcome back as the next event, until the action is `Done`.
pub fn enrich_from_musicbrainz(track: &mut Track, config: Option<&Config>, event: EnrichEvent) -> (r: EnrichAction)
    ensures
        (final(track)@, r@) == enrich_transition(old(track)@, config_api_key(config), event),
{
    match event {
        EnrichEvent::Start => enrich_start(track),
        EnrichEvent::BarcodeSearched { duration_secs, found } => enrich_after_barcode(
            track,
            duration_secs,
            found,
            config,
        ),
        EnrichEvent::AlbumSearched { found } => enrich_after_album_search(track, found, config),
        EnrichEvent::ArtFetched { art } => {
            enrich_apply_art(track, art);
            EnrichAction::Done
        },
    }
}


/// Enrichment never loses an album the track has, never changes its artist,
/// duration or catalog number, and without a duration it does nothing.
pub proof fn lemma_enrichment_keeps_identity(t: TrackView, key: Option<Seq<char>>, event: EnrichEvent)
    ensures
        t.album is Some ==> enrich_transition(t, key, event).0.album is Some,
        enrich_transition(t, key, event).0.artist == t.artist,
        enrich_transition(t, key, event).0.duration == t.duration,
        enrich_transition(t, key, event).0.upc == t.upc,
        t.duration is None ==> enrich_transition(t, key, EnrichEvent::Start) == (t, EnrichStep::Done),
{
}

/// A track without a catalog number that looks like a barcode and without a
/// non-empty album cannot be looked up: enrichment stops at once and leaves
/// the track as it is.
pub proof fn lemma_enrichment_needs_album_or_barcode(t: TrackView, key: Option<Seq<char>>)
    requires
        !(t.upc matches Some(u) && is_barcode(u)),
        !(t.album matches Some(a) && a.len() > 0),
    ensures
        enrich_transition(t, key, EnrichEvent::Start) == (t, EnrichStep::Done),
{
}

/// The title of the first matching track is the title of a track whose
/// length is within the tolerance.
proof fn lemma_tracks_match_witness(ts: Seq<MBTrack>, d: u64)
    requires
        match_in_tracks(ts, d) is Some,
    ensures
        exists|k: int|
            0 <= k < ts.len() && track_matches(#[trigger] ts[k], d) && ts[k].title->0@ == match_in_tracks(
                ts,
                d,
            )->0,
    decreases ts.len(),
{
    if track_matches(ts[0], d) {
        assert(track_matches(ts[0], d));
    } else {
        lemma_tracks_match_witness(ts.drop_first(), d);
        let k = choose|k: int|
            0 <= k < ts.drop_first().len() && track_matches(#[trigger] ts.drop_first()[k], d)
                && ts.drop_first()[k].title->0@ == match_in_tracks(ts.drop_first(), d)->0;
        assert(ts[k + 1] == ts.drop_first()[k]);
    }
}

/// The match found over the media is the match of one medium.
proof fn lemma_media_match_witness(ms: Seq<MBMedia>, d: u64)
    requires
        match_in_media(ms, d) is Some,
    ensures
        exists|j: int|
            0 <= j < ms.len() && match_in_medium(#[trigger] ms[j], d) == match_in_media(ms, d),
    decreases ms.len(),
{
    if match_in_medium(ms[0], d) is Some {
        assert(match_in_medium(ms[0], d) == match_in_media(ms, d));
    } else {
        lemma_media_match_witness(ms.drop_first(), d);
        let j = choose|j: int|
            0 <= j < ms.drop_first().len() && match_in_medium(#[trigger] ms.drop_first()[j], d)
                == match_in_media(ms.drop_first(), d);
        assert(ms[j + 1] == ms.drop_first()[j]);
    }
}

/// The match found over the releases is the match of one release with a
/// title, and its album is that title.
proof fn lemma_releases_match_witness(rs: Seq<MBRelease>, d: u64)
    requires
        match_in_releases(rs, d) is Some,
    ensures
        ({
            let found = match_in_releases(rs, d)->0;
            exists|i: int|
                0 <= i < rs.len() && (#[trigger] rs[i]).title is Some && rs[i].title->0@ == found.0
                    && match_in_release(rs[i], d) == Some(found.1)
        }),
    decreases rs.len(),
{
    if match_in_release(rs[0], d) is Some {
        assert(rs[0].title is Some);
    } else {
        lemma_releases_match_witness(rs.drop_first(), d);
        let found = match_in_releases(rs.drop_first(), d)->0;
        let i = choose|i: int|
            0 <= i < rs.drop_first().len() && (#[trigger] rs.drop_first()[i]).title is Some
                && rs.drop_first()[i].title->0@ == found.0 && match_in_release(
                rs.drop_first()[i],
                d,
            ) == Some(found.1);
        assert(rs[i + 1] == rs.drop_first()[i]);
    }
}

/// A MusicBrainz match names a release title as the album and the title of
/// one of its tracks whose length lies within three seconds (3000 ms) of the
/// track's duration.
pub proof fn lemma_match_within_tolerance(res: MBReleaseSearchResult, duration_secs: u64)
    requires
        duration_secs * 1000 <= u64::MAX,
        release_track_match(res, duration_secs) is Some,
    ensures
        ({
            let found = release_track_match(res, duration_secs)->0;
            exists|rel: MBRelease, med: MBMedia, tr: MBTrack|
                #![trigger res.releases->0@.contains(rel), rel.media->0@.contains(med), med.tracks->0@.contains(tr)]
                {
                    &&& res.releases->0@.contains(rel)
                    &&& rel.media->0@.contains(med)
                    &&& med.tracks->0@.contains(tr)
                    &&& rel.title->0@ == found.0
                    &&& tr.title->0@ == found.1
                    &&& tr.length matches Some(l)
                    &&& -3000 <= l - duration_secs * 1000 <= 3000
                }
        }),
{
    let d = (duration_secs * 1000) as u64;
    let rs = res.releases->0@;
    lemma_releases_match_witness(rs, d);
    let found = match_in_releases(rs, d)->0;
    let i = choose|i: int|
        0 <= i < rs.len() && (#[trigger] rs[i]).title is Some && rs[i].title->0@ == found.0
            && match_in_release(rs[i], d) == Some(found.1);
    let rel = rs[i];
    let ms = rel.media->0@;
    lemma_media_match_witness(ms, d);
    let j = choose|j: int|
        0 <= j < ms.len() && match_in_medium(#[trigger] ms[j], d) == match_in_media(ms, d);
    let med = ms[j];
    let ts = med.tracks->0@;
    lemma_tracks_match_witness(ts, d);
    let k = choose|k: int|
        0 <= k < ts.len() && track_matches(#[trigger] ts[k], d) && ts[k].title->0@ == match_in_tracks(
            ts,
            d,
        )->0;
    let tr = ts[k];
    assert(rs.contains(rel));
    assert(ms.contains(med));
    assert(ts.contains(tr));
}

/// Once the result for an artist and album has been stored, looking them up
/// again is answered from the cache with that result, and lookups of other
/// keys are unaffected.
pub proof fn lemma_art_cache_read_after_write(
    cache: Map<(Seq<char>, Seq<char>), Option<Seq<char>>>,
    artist: Seq<char>,
    album: Seq<char>,
    stored: Option<Seq<char>>,
    api_key: Seq<char>,
    other_artist: Seq<char>,
    other_album: Seq<char>,
)
    requires
        !art_lookup_skipped(artist, album, api_key),
    ensures
        art_lookup_step(cache.insert((artist, album), stored), artist, album, api_key)
            == ArtLookupStep::Cached(stored),
        (other_artist, other_album) != (artist, album) ==> art_lookup_step(
            cache.insert((artist, album), stored),
            other_artist,
            other_album,
            api_key,
        ) == art_lookup_step(cache, other_artist, other_album, api_key),
{
}

/// Position of an event in the enrichment flow: start, barcode search,
/// album search, art lookup.
pub open spec fn event_stage(event: EnrichEvent) -> int {
    match event {
        EnrichEvent::Start => 0,
        EnrichEvent::BarcodeSearched { .. } => 1,
        EnrichEvent::AlbumSearched { .. } => 2,
        EnrichEvent::ArtFetched { .. } => 3,
    }
}

/// Position of an action in the enrichment flow; the event that answers an
/// action has the same position, and `Done` comes last.
pub open spec fn action_stage(step: EnrichStep) -> int {
    match step {
        EnrichStep::SearchBarcode(..) => 1,
        EnrichStep::SearchAlbum(..) => 2,
        EnrichStep::FetchLastFmArt(..) => 3,
        EnrichStep::Done => 4,
    }
}

/// The enrichment flow only moves forward: barcode search, then album
/// search, then the art lookup, then done. Each step asks for an action
/// later than the event it answers, so a run whose events answer its
/// actions ends after at most four steps; the barcode search can only be
/// the first action, and the art lookup always ends the flow.
pub proof fn lemma_enrichment_moves_forward(t: TrackView, key: Option<Seq<char>>, event: EnrichEvent)
    ensures
        action_stage(enrich_transition(t, key, event).1) > event_stage(event),
        event_stage(event) > 0 ==> !(enrich_transition(t, key, event).1 is SearchBarcode),
        event is ArtFetched ==> enrich_transition(t, key, event).1 is Done,
{
}

/// A track whose length lies within 3000 ms of `duration_ms` and which has
/// a title.
pub open spec fn near_titled_track(t: MBTrack, duration_ms: int) -> bool {
    &&& t.title is Some
    &&& t.length matches Some(l)
    &&& -3000 <= l - duration_ms <= 3000
}

/// A list holding a titled track near the duration has a match.
proof fn lemma_tracks_match_complete(ts: Seq<MBTrack>, d: u64, k: int)
    requires
        0 <= k < ts.len(),
        near_titled_track(ts[k], d as int),
    ensures
        match_in_tracks(ts, d) is Some,
    decreases k,
{
    if !track_matches(ts[0], d) {
        assert(ts.drop_first()[k - 1] == ts[k]);
        lemma_tracks_match_complete(ts.drop_first(), d, k - 1);
    }
}

/// Media of which one has a match have a match, whatever media precede it.
proof fn lemma_media_match_complete(ms: Seq<MBMedia>, d: u64, j: int)
    requires
        0 <= j < ms.len(),
        match_in_medium(ms[j], d) is Some,
    ensures
        match_in_media(ms, d) is Some,
    decreases j,
{
    if match_in_medium(ms[0], d) is None {
        assert(ms.drop_first()[j - 1] == ms[j]);
        lemma_media_match_complete(ms.drop_first(), d, j - 1);
    }
}

/// Releases of which one has a match have a match.
proof fn lemma_releases_match_complete(rs: Seq<MBRelease>, d: u64, i: int)
    requires
        0 <= i < rs.len(),
        match_in_release(rs[i], d) is Some,
    ensures
        match_in_releases(rs, d) is Some,
    decreases i,
{
    if match_in_release(rs[0], d) is None {
        assert(rs.drop_first()[i - 1] == rs[i]);
        lemma_releases_match_complete(rs.drop_first(), d, i - 1);
    }
}

/// Matching is complete: when any titled release holds, on any of its
/// media, a titled track within three seconds of the duration, the search
/// result gives a match (which, by [`lemma_match_within_tolerance`], is
/// such a release and track).
pub proof fn lemma_match_complete(res: MBReleaseSearchResult, duration_secs: u64, i: int, j: int, k: int)
    requires
        duration_secs * 1000 <= u64::MAX,
        res.releases matches Some(rs) && 0 <= i < rs@.len() && rs@[i].title is Some,
        res.releases->0@[i].media matches Some(ms) && 0 <= j < ms@.len(),
        res.releases->0@[i].media->0@[j].tracks matches Some(ts) && 0 <= k < ts@.len(),
        near_titled_track(res.releases->0@[i].media->0@[j].tracks->0@[k], duration_secs * 1000),
    ensures
        release_track_match(res, duration_secs) is Some,
{
    let d = (duration_secs * 1000) as u64;
    let rs = res.releases->0@;
    let ms = rs[i].media->0@;
    let ts = ms[j].tracks->0@;
    lemma_tracks_match_complete(ts, d, k);
    lemma_media_match_complete(ms, d, j);
    lemma_releases_match_complete(rs, d, i);
}

} // verus!
