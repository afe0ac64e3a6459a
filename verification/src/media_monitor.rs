//! Snapshot-driven state machine for tracking media playback and deciding
//! when a track is announced ("now playing") and when it is scrobbled.
use vstd::prelude::*;

use std::time::Instant;

use crate::clock::{instant_after, instant_now, utc_now, whole_secs_since, UtcTimestamp};
use crate::config::{contains_string, lemma_with_app_idempotent, strings_view, with_app, AppFilteringConfig};
use crate::text::{
    all_white_space, chars_of, find_exec, find_first, is_blank, occurs_at, string_from_range,
};
use crate::text_cleanup::{classical_metadata, cleaned, parse_classical_metadata, TextCleaner, TextCleanerView};
use crate::track::{clone_opt_string, opt_chars, Track, TrackView};

verus! {

/// Minimum track duration in seconds for a track to be scrobbled.
pub const MIN_TRACK_DURATION: u64 = 30;

/// Playing time in seconds after which a track is scrobbled whatever its
/// length (four minutes).
pub const SCROBBLE_TIME_THRESHOLD: u64 = 240;

/// A snapshot of the system's now-playing information, with times in whole
/// seconds.
#[derive(Debug)]
pub struct NowPlayingInfo {
    pub is_playing: Option<bool>,
    pub title: Option<String>,
    pub artist: Option<String>,
    pub album: Option<String>,
    /// Elapsed playing time of the current track.
    pub elapsed_time: Option<u64>,
    /// Length of the current track.
    pub duration: Option<u64>,
    /// Bundle identifier of the application that plays.
    pub bundle_id: Option<String>,
}

/// Action to take based on app filtering.
#[derive(Debug, Clone, Copy, PartialEq, Eq, Structural)]
pub enum AppFilterAction {
    Allow,
    Ignore,
    PromptUser,
}

/// Whether playback from the application `bundle` is scrobbled, ignored or
/// the user is asked.
pub open spec fn filter_action(bundle: Option<Seq<char>>, f: AppFilteringConfig) -> AppFilterAction {
    match bundle {
        Some(id) if id.len() > 0 => {
            if strings_view(f.allowed_apps@).contains(id) {
                AppFilterAction::Allow
            } else if strings_view(f.ignored_apps@).contains(id) {
                AppFilterAction::Ignore
            } else if f.prompt_for_new_apps {
                AppFilterAction::PromptUser
            } else {
                AppFilterAction::Allow
            }
        },
        _ => {
            if f.scrobble_unknown {
                AppFilterAction::Allow
            } else {
                AppFilterAction::Ignore
            }
        },
    }
}

/// `s` holds the brand name `IDAGIO`.
pub open spec fn mentions_idagio(s: Seq<char>) -> bool {
    find_first(s, "IDAGIO"@) is Some
}

/// Artist and title of a generic source: a blank artist with a title
/// `Artist - Title` is split at the first `" - "` when both parts are
/// non-empty.
pub open spec fn split_generic(artist: Seq<char>, title: Seq<char>) -> (Seq<char>, Seq<char>) {
    if all_white_space(artist) && title.len() > 0 {
        match find_first(title, " - "@) {
            Some(p) => {
                let a = title.subrange(0, p);
                let t = title.subrange(p + 3, title.len() as int);
                if a.len() > 0 && t.len() > 0 {
                    (a, t)
                } else {
                    (artist, title)
                }
            },
            None => (artist, title),
        }
    } else {
        (artist, title)
    }
}

/// The track that a snapshot describes and whether it may be scrobbled;
/// `None` when title or artist is missing. IDAGIO tracks are cleaned for
/// display and never scrobbled.
pub open spec fn track_from_info(c: TextCleanerView, info: NowPlayingInfo) -> Option<(TrackView, bool)> {
    match (info.title, info.artist) {
        (Some(title), Some(artist)) => {
            let t = title@;
            let a = artist@;
            let album = opt_chars(info.album);
            let is_idagio = mentions_idagio(t) || mentions_idagio(a) || (album matches Some(al)
                && mentions_idagio(al));
            if is_idagio {
                let parsed = classical_metadata(a, t);
                let ca = cleaned(c.enabled, c.patterns, parsed.0);
                let ct = cleaned(c.enabled, c.patterns, parsed.1);
                let calb = match album {
                    Some(al) => Some(cleaned(c.enabled, c.patterns, al)),
                    None => if ct.len() > 0 {
                        Some(ct)
                    } else {
                        None
                    },
                };
                Some(
                    (
                        TrackView {
                            title: ct,
                            artist: ca,
                            album: calb,
                            duration: info.duration,
                            upc: parsed.2,
                            lastfm_album_art_url: None,
                        },
                        false,
                    ),
                )
            } else {
                let split = split_generic(a, t);
                let calb = match album {
                    Some(al) => Some(cleaned(c.enabled, c.patterns, al)),
                    None => None,
                };
                Some(
                    (
                        TrackView {
                            title: cleaned(c.enabled, c.patterns, split.1),
                            artist: cleaned(c.enabled, c.patterns, split.0),
                            album: calb,
                            duration: info.duration,
                            upc: None,
                            lastfm_album_art_url: None,
                        },
                        true,
                    ),
                )
            }
        },
        _ => None,
    }
}

/// Seconds of play after which a session is scrobbled: `threshold` percent
/// of the duration, at most four minutes; `None` once scrobbled or for
/// tracks shorter than thirty seconds.
pub open spec fn scrobble_target(scrobbled: bool, duration: u64, threshold: u8) -> Option<int> {
    if scrobbled || duration < MIN_TRACK_DURATION {
        None
    } else {
        let t = (duration * threshold) / 100;
        Some(
            if t < SCROBBLE_TIME_THRESHOLD {
                t
            } else {
                SCROBBLE_TIME_THRESHOLD as int
            },
        )
    }
}


/// The state of one play session, as the contracts see it.
pub struct SessionView {
    pub track: TrackView,
    pub bundle_id: Option<Seq<char>>,
    pub started_at_utc: UtcTimestamp,
    pub duration: u64,
    pub scrobbled: bool,
    pub now_playing_sent: bool,
    /// Last known elapsed time reported by the media player (seconds).
    pub elapsed_secs: u64,
    pub is_playing: bool,
    /// When `elapsed_secs` was last updated from a snapshot.
    pub last_snapshot_at: Instant,
    pub scrobble_allowed: bool,
}

/// Played seconds `since` seconds after the last snapshot: the elapsed time
/// plus, while playing, the time since the snapshot (saturating).
pub open spec fn played_at(s: SessionView, since: u64) -> int {
    if s.is_playing {
        if s.elapsed_secs + since <= u64::MAX {
            s.elapsed_secs + since
        } else {
            u64::MAX as int
        }
    } else {
        s.elapsed_secs as int
    }
}

/// Whether the session is due to be scrobbled `since` seconds after its last
/// snapshot.
pub open spec fn due_at(s: SessionView, threshold: u8, since: u64) -> bool {
    s.scrobble_allowed && match scrobble_target(s.scrobbled, s.duration, threshold) {
        Some(t) => played_at(s, since) >= t,
        None => false,
    }
}

/// The current play session.
struct PlaySession {
    track: Track,
    bundle_id: Option<String>,
    started_at_utc: UtcTimestamp,
    duration: u64,
    scrobbled: bool,
    now_playing_sent: bool,
    elapsed_secs: u64,
    is_playing: bool,
    last_snapshot_at: Instant,
    scrobble_allowed: bool,
}

impl View for PlaySession {
    type V = SessionView;

    closed spec fn view(&self) -> SessionView {
        SessionView {
            track: self.track@,
            bundle_id: opt_chars(self.bundle_id),
            started_at_utc: self.started_at_utc,
            duration: self.duration,
            scrobbled: self.scrobbled,
            now_playing_sent: self.now_playing_sent,
            elapsed_secs: self.elapsed_secs,
            is_playing: self.is_playing,
            last_snapshot_at: self.last_snapshot_at,
            scrobble_allowed: self.scrobble_allowed,
        }
    }
}

impl PlaySession {
    /// Time needed to reach the scrobble threshold.
    fn scrobble_at(&self, threshold_percent: u8) -> (r: Option<u64>)
        requires
            self.duration * threshold_percent <= u64::MAX,
        ensures
            match r {
                Some(t) => scrobble_target(self.scrobbled, self.duration, threshold_percent)
                    == Some(t as int),
                None => scrobble_target(self.scrobbled, self.duration, threshold_percent) is None,
            },
    {
        if self.scrobbled || self.duration < MIN_TRACK_DURATION {
            return None;
        }
        let threshold_time = (self.duration * threshold_percent as u64) / 100;
        if threshold_time < SCROBBLE_TIME_THRESHOLD {
            Some(threshold_time)
        } else {
            Some(SCROBBLE_TIME_THRESHOLD)
        }
    }

    /// Played time `since` seconds after the last snapshot.
    fn played_seconds_at(&self, since: u64) -> (r: u64)
        ensures
            r == played_at(self@, since),
    {
        if self.is_playing {
            self.elapsed_secs.saturating_add(since)
        } else {
            self.elapsed_secs
        }
    }

    /// Whether the session is due, `since` seconds after its last snapshot.
    fn should_scrobble_at(&self, threshold_percent: u8, since: u64) -> (r: bool)
        requires
            self.duration * threshold_percent <= u64::MAX,
        ensures
            r == due_at(self@, threshold_percent, since),
    {
        if !self.scrobble_allowed {
            return false;
        }
        match self.scrobble_at(threshold_percent) {
            Some(target) => self.played_seconds_at(since) >= target,
            None => false,
        }
    }
}


/// The state of a [`MediaMonitor`], as the contracts see it.
pub struct MonitorView {
    pub scrobble_threshold: u8,
    pub session: Option<SessionView>,
    pub cleaner: TextCleanerView,
}

/// The content of a [`MediaEvents`].
pub struct EventsView {
    pub now_playing: Option<(TrackView, Option<Seq<char>>, bool)>,
    pub scrobble: Option<(TrackView, UtcTimestamp, Option<Seq<char>>)>,
    pub unknown_app: Option<Seq<char>>,
}

/// No event.
pub open spec fn no_events() -> EventsView {
    EventsView { now_playing: None, scrobble: None, unknown_app: None }
}

/// The track's duration in seconds, zero when unknown.
pub open spec fn duration_or_zero(d: Option<u64>) -> u64 {
    match d {
        Some(x) => x,
        None => 0,
    }
}

/// Whether the player reports playing (false when unknown).
pub open spec fn playing_flag(p: Option<bool>) -> bool {
    match p {
        Some(b) => b,
        None => false,
    }
}

/// How the monitor reacts to a snapshot. `snap` is the clock reading taken
/// when the snapshot is processed, `now_utc` the wall-clock time that starts
/// a new session and `since` the whole seconds elapsed since `snap` when the
/// scrobble threshold is tested.
pub open spec fn snapshot_step(
    m: MonitorView,
    info: Option<NowPlayingInfo>,
    f: AppFilteringConfig,
    snap: Instant,
    now_utc: UtcTimestamp,
    since: u64,
) -> (MonitorView, EventsView) {
    match info {
        None => (MonitorView { session: None, ..m }, no_events()),
        Some(i) => match track_from_info(m.cleaner, i) {
            None => (m, no_events()),
            Some(tr) => {
                let track = tr.0;
                let allowed = tr.1;
                let bundle = opt_chars(i.bundle_id);
                match filter_action(bundle, f) {
                    AppFilterAction::Ignore => (m, no_events()),
                    AppFilterAction::PromptUser => (m, EventsView { unknown_app: bundle, ..no_events() }),
                    AppFilterAction::Allow => {
                        let playing = playing_flag(i.is_playing);
                        let elapsed = duration_or_zero(i.elapsed_time);
                        let is_new = match m.session {
                            None => true,
                            Some(s) => s.track != track,
                        };
                        if is_new {
                            let s = SessionView {
                                track: track,
                                bundle_id: bundle,
                                started_at_utc: now_utc,
                                duration: duration_or_zero(track.duration),
                                scrobbled: false,
                                now_playing_sent: true,
                                elapsed_secs: elapsed,
                                is_playing: playing,
                                last_snapshot_at: snap,
                                scrobble_allowed: allowed,
                            };
                            (
                                MonitorView { session: Some(s), ..m },
                                EventsView { now_playing: Some((track, bundle, allowed)), ..no_events() },
                            )
                        } else {
                            let s1 = SessionView {
                                elapsed_secs: elapsed,
                                is_playing: playing,
                                last_snapshot_at: snap,
                                ..m.session->0
                            };
                            if due_at(s1, m.scrobble_threshold, since) {
                                (
                                    MonitorView {
                                        session: Some(SessionView { scrobbled: true, ..s1 }),
                                        ..m
                                    },
                                    EventsView {
                                        scrobble: Some((s1.track, s1.started_at_utc, s1.bundle_id)),
                                        ..no_events()
                                    },
                                )
                            } else if !s1.now_playing_sent {
                                (
                                    MonitorView {
                                        session: Some(SessionView { now_playing_sent: true, ..s1 }),
                                        ..m
                                    },
                                    EventsView {
                                        now_playing: Some((s1.track, s1.bundle_id, s1.scrobble_allowed)),
                                        ..no_events()
                                    },
                                )
                            } else {
                                (MonitorView { session: Some(s1), ..m }, no_events())
                            }
                        }
                    },
                }
            },
        },
    }
}

/// How the monitor reacts to its scrobble deadline, `since` seconds after the
/// session's last snapshot.
pub open spec fn deadline_step(m: MonitorView, since: u64) -> (MonitorView, EventsView) {
    match m.session {
        Some(s) => if due_at(s, m.scrobble_threshold, since) {
            (
                MonitorView { session: Some(SessionView { scrobbled: true, ..s }), ..m },
                EventsView { scrobble: Some((s.track, s.started_at_utc, s.bundle_id)), ..no_events() },
            )
        } else {
            (m, no_events())
        },
        None => (m, no_events()),
    }
}

/// Seconds to wait, `since` seconds after the last snapshot, until the
/// session is due; `None` when nothing is playing or nothing is to be
/// scrobbled.
pub open spec fn scrobble_wait(m: MonitorView, since: u64) -> Option<int> {
    match m.session {
        Some(s) => if !s.is_playing {
            None
        } else {
            match scrobble_target(s.scrobbled, s.duration, m.scrobble_threshold) {
                Some(t) => if played_at(s, since) >= t {
                    Some(0)
                } else {
                    Some(t - played_at(s, since))
                },
                None => None,
            }
        },
        None => None,
    }
}

/// Whether a snapshot keeps the scrobble arithmetic in range: when it would
/// start or continue a session (it names a title and an artist, and the
/// application is allowed), its duration times the threshold percentage
/// fits in a `u64`.
pub open spec fn snapshot_fits(threshold: u8, info: Option<NowPlayingInfo>, f: AppFilteringConfig) -> bool {
    match info {
        Some(i) => (i.title is Some && i.artist is Some && filter_action(opt_chars(i.bundle_id), f)
            == AppFilterAction::Allow) ==> duration_or_zero(i.duration) * threshold <= u64::MAX,
        None => true,
    }
}

/// Every session of a monitor has been announced, and its scrobble
/// arithmetic stays in range.
pub open spec fn monitor_wf(m: MonitorView) -> bool {
    m.session matches Some(s) ==> s.now_playing_sent && s.duration * m.scrobble_threshold <= u64::MAX
}

/// Events generated by media monitoring.
#[derive(Debug)]
pub struct MediaEvents {
    pub now_playing: Option<(Track, Option<String>, bool)>,
    pub scrobble: Option<(Track, UtcTimestamp, Option<String>)>,
    pub unknown_app: Option<String>,
}

impl View for MediaEvents {
    type V = EventsView;

    open spec fn view(&self) -> EventsView {
        EventsView {
            now_playing: match self.now_playing {
                Some(e) => Some((e.0@, opt_chars(e.1), e.2)),
                None => None,
            },
            scrobble: match self.scrobble {
                Some(e) => Some((e.0@, e.1, opt_chars(e.2))),
                None => None,
            },
            unknown_app: opt_chars(self.unknown_app),
        }
    }
}

impl Default for MediaEvents {
    fn default() -> (r: Self)
        ensures
            r@ == no_events(),
    {
        MediaEvents { now_playing: None, scrobble: None, unknown_app: None }
    }
}

/// Declares `anyhow::Error`, the error type of the monitor's fallible
/// interface, as an opaque type.
#[verifier::external_type_specification]
#[verifier::external_body]
pub struct ExAnyhowError(anyhow::Error);

/// Media monitor that processes snapshots of now-playing state.
pub struct MediaMonitor {
    scrobble_threshold: u8,
    current_session: Option<PlaySession>,
    text_cleaner: TextCleaner,
}

impl View for MediaMonitor {
    type V = MonitorView;

    closed spec fn view(&self) -> MonitorView {
        MonitorView {
            scrobble_threshold: self.scrobble_threshold,
            session: match self.current_session {
                Some(s) => Some(s@),
                None => None,
            },
            cleaner: self.text_cleaner@,
        }
    }
}


/// The characters of `"IDAGIO"`.
fn idagio_chars() -> (v: Vec<char>)
    ensures
        v@ == "IDAGIO"@,
{
    chars_of("IDAGIO")
}

/// Whether `s` holds the brand name `IDAGIO`.
fn mentions_idagio_exec(s: &String, brand: &Vec<char>) -> (r: bool)
    requires
        brand@ == "IDAGIO"@,
    ensures
        r == mentions_idagio(s@),
{
    let chars = chars_of(s.as_str());
    match find_exec(&chars, brand) {
        Some(_) => true,
        None => false,
    }
}

/// Artist and title of a generic source (see [`split_generic`]).
fn split_generic_exec(artist: &String, title: &String) -> (r: (String, String))
    ensures
        (r.0@, r.1@) == split_generic(artist@, title@),
{
    if is_blank(artist.as_str()) && !title.as_str().is_empty() {
        let chars = chars_of(title.as_str());
        let sep = chars_of(" - ");
        proof {
            reveal_strlit(" - ");
        }
        assert(sep@ == " - "@);
        assert(sep@.len() == 3);
        match find_exec(&chars, &sep) {
            Some(p) => {
                assert(p + sep@.len() <= chars@.len());
                assert(p + 3 <= chars.len());
                let a = string_from_range(&chars, 0, p);
                let t = string_from_range(&chars, p + 3, chars.len());
                if !a.as_str().is_empty() && !t.as_str().is_empty() {
                    return (a, t);
                }
            },
            None => {},
        }
    }
    (artist.clone(), title.clone())
}

impl MediaMonitor {
    /// The current session has been announced and its threshold arithmetic
    /// stays in range.
    #[verifier::type_invariant]
    closed spec fn inv(&self) -> bool {
        self.current_session matches Some(s) ==> s.now_playing_sent && s.duration
            * self.scrobble_threshold <= u64::MAX
    }

    /// A monitor with no session.
    pub fn new(scrobble_threshold: u8, text_cleaner: TextCleaner) -> (r: Self)
        ensures
            monitor_wf(r@),
            r@ == (MonitorView {
                scrobble_threshold: scrobble_threshold,
                session: None,
                cleaner: text_cleaner@,
            }),
    {
        MediaMonitor { scrobble_threshold, current_session: None, text_cleaner }
    }

    /// Check if an app should be scrobbled based on filtering config.
    fn should_scrobble_app(&self, bundle_id: &Option<String>, app_filtering: &AppFilteringConfig) -> (r: AppFilterAction)
        ensures
            r == filter_action(opt_chars(*bundle_id), *app_filtering),
    {
        match bundle_id {
            Some(id) if !id.as_str().is_empty() => {
                if contains_string(&app_filtering.allowed_apps, id) {
                    return AppFilterAction::Allow;
                }
                if contains_string(&app_filtering.ignored_apps, id) {
                    return AppFilterAction::Ignore;
                }
                if app_filtering.prompt_for_new_apps {
                    AppFilterAction::PromptUser
                } else {
                    AppFilterAction::Allow
                }
            },
            _ => {
                if app_filtering.scrobble_unknown {
                    AppFilterAction::Allow
                } else {
                    AppFilterAction::Ignore
                }
            },
        }
    }

    /// Convert a now-playing snapshot to a track and whether it may be
    /// scrobbled. IDAGIO-specific parsing applies only when the brand name
    /// appears in the metadata.
    fn media_info_to_track(&self, info: &NowPlayingInfo) -> (r: Option<(Track, bool)>)
        ensures
            match r {
                Some(x) => track_from_info(self.text_cleaner@, *info) == Some((x.0@, x.1)),
                None => track_from_info(self.text_cleaner@, *info) is None,
            },
    {
        let title = match &info.title {
            Some(t) => t,
            None => return None,
        };
        let artist = match &info.artist {
            Some(a) => a,
            None => return None,
        };
        let album = clone_opt_string(&info.album);
        let brand = idagio_chars();
        let is_idagio = mentions_idagio_exec(title, &brand) || mentions_idagio_exec(artist, &brand)
            || match &album {
            Some(a) => mentions_idagio_exec(a, &brand),
            None => false,
        };
        if is_idagio {
            // Cleaned up for display; never scrobbled.
            let parsed = if is_blank(artist.as_str()) {
                parse_classical_metadata(artist.as_str(), title.as_str())
            } else {
                (artist.clone(), title.clone(), None)
            };
            let clean_artist = self.text_cleaner.clean(parsed.0.as_str());
            let clean_title = self.text_cleaner.clean(parsed.1.as_str());
            let mut clean_album = self.text_cleaner.clean_option(album);
            if clean_album.is_none() && !clean_title.as_str().is_empty() {
                clean_album = Some(clean_title.clone());
            }
            let track = Track {
                title: clean_title,
                artist: clean_artist,
                album: clean_album,
                duration: info.duration,
                upc: parsed.2,
                lastfm_album_art_url: None,
            };
            Some((track, false))
        } else {
            let split = split_generic_exec(artist, title);
            let clean_artist = self.text_cleaner.clean(split.0.as_str());
            let clean_title = self.text_cleaner.clean(split.1.as_str());
            let clean_album = self.text_cleaner.clean_option(album);
            let track = Track {
                title: clean_title,
                artist: clean_artist,
                album: clean_album,
                duration: info.duration,
                upc: None,
                lastfm_album_art_url: None,
            };
            Some((track, true))
        }
    }
    /// Whether the scrobble arithmetic stays in range for `info`; the
    /// snapshot functions require it.
    pub fn accepts_snapshot(&self, info: &Option<NowPlayingInfo>, app_filtering: &AppFilteringConfig) -> (r: bool)
        ensures
            r == snapshot_fits(self@.scrobble_threshold, *info, *app_filtering),
    {
        match info {
            Some(i) => {
                if i.title.is_none() || i.artist.is_none() {
                    return true;
                }
                match self.should_scrobble_app(&i.bundle_id, app_filtering) {
                    AppFilterAction::Allow => {},
                    _ => return true,
                }
                let d: u64 = match i.duration {
                    Some(x) => x,
                    None => 0,
                };
                d.checked_mul(self.scrobble_threshold as u64).is_some()
            },
            None => true,
        }
    }

    /// Process a snapshot of now-playing info and return events; `snap` is
    /// the clock reading at processing time, `now_utc` the start time of a
    /// new session and `since` the seconds elapsed since `snap`.
    pub fn process_snapshot(
        &mut self,
        info: Option<NowPlayingInfo>,
        app_filtering: &AppFilteringConfig,
        snap: Instant,
        now_utc: UtcTimestamp,
        since: u64,
    ) -> (r: MediaEvents)
        requires
            snapshot_fits(old(self)@.scrobble_threshold, info, *app_filtering),
        ensures
            (final(self)@, r@) == snapshot_step(old(self)@, info, *app_filtering, snap, now_utc, since),
            monitor_wf(final(self)@),
    {
        proof {
            use_type_invariant(&*self);
            lemma_snapshot_keeps_wf(self@, info, *app_filtering, snap, now_utc, since);
        }
        let mut events = MediaEvents::default();
        let info = match info {
            Some(i) => i,
            None => {
                // No media playing: clear the session.
                self.current_session = None;
                return events;
            },
        };
        let is_playing = match info.is_playing {
            Some(b) => b,
            None => false,
        };
        let elapsed: u64 = match info.elapsed_time {
            Some(e) => e,
            None => 0,
        };
        let (track, scrobble_allowed) = match self.media_info_to_track(&info) {
            Some(x) => x,
            None => return events,
        };
        let duration: u64 = match track.duration {
            Some(d) => d,
            None => 0,
        };
        let bundle_id = clone_opt_string(&info.bundle_id);
        match self.should_scrobble_app(&bundle_id, app_filtering) {
            AppFilterAction::Ignore => {
                return events;
            },
            AppFilterAction::PromptUser => {
                events.unknown_app = bundle_id;
                return events;
            },
            AppFilterAction::Allow => {},
        }
        let is_new_track = match &self.current_session {
            None => true,
            Some(session) => !session.track.same_track(&track),
        };
        if is_new_track {
            let session = PlaySession {
                track: track.clone(),
                bundle_id: clone_opt_string(&bundle_id),
                started_at_utc: now_utc,
                duration,
                scrobbled: false,
                now_playing_sent: true,
                elapsed_secs: elapsed,
                is_playing,
                last_snapshot_at: snap,
                scrobble_allowed,
            };
            self.current_session = Some(session);
            events.now_playing = Some((track, bundle_id, scrobble_allowed));
            events
        } else {
            let threshold = self.scrobble_threshold;
            let mut previous: Option<PlaySession> = None;
            std::mem::swap(&mut previous, &mut self.current_session);
            match previous {
                Some(mut session) => {
                    // Same track: update elapsed time from the snapshot.
                    session.elapsed_secs = elapsed;
                    session.is_playing = is_playing;
                    session.last_snapshot_at = snap;
                    if session.should_scrobble_at(threshold, since) {
                        events.scrobble = Some(
                            (
                                session.track.clone(),
                                session.started_at_utc,
                                clone_opt_string(&session.bundle_id),
                            ),
                        );
                        session.scrobbled = true;
                    } else if !session.now_playing_sent {
                        events.now_playing = Some(
                            (
                                session.track.clone(),
                                clone_opt_string(&session.bundle_id),
                                session.scrobble_allowed,
                            ),
                        );
                        session.now_playing_sent = true;
                    }
                    self.current_session = Some(session);
                },
                None => {},
            }
            events
        }
    }

    /// Process a snapshot of now-playing info and return events, reading the
    /// clocks. Never fails.
    pub fn handle_media_change(
        &mut self,
        info: Option<NowPlayingInfo>,
        app_filtering: &AppFilteringConfig,
    ) -> (r: Result<MediaEvents, anyhow::Error>)
        requires
            snapshot_fits(old(self)@.scrobble_threshold, info, *app_filtering),
        ensures
            monitor_wf(final(self)@),
            r matches Ok(e) && exists|snap: Instant, now_utc: UtcTimestamp, since: u64|
                (final(self)@, e@) == #[trigger] snapshot_step(
                    old(self)@,
                    info,
                    *app_filtering,
                    snap,
                    now_utc,
                    since,
                ),
    {
        let snap = instant_now();
        let now_utc = utc_now();
        let since = whole_secs_since(&snap);
        let events = self.process_snapshot(info, app_filtering, snap, now_utc, since);
        Ok(events)
    }

    /// Scrobble the current session if it is due, `since` seconds after its
    /// last snapshot.
    pub fn check_scrobble_at(&mut self, since: u64) -> (r: MediaEvents)
        ensures
            (final(self)@, r@) == deadline_step(old(self)@, since),
            monitor_wf(final(self)@),
    {
        proof {
            use_type_invariant(&*self);
            lemma_deadline_keeps_wf(self@, since);
        }
        let mut events = MediaEvents::default();
        let threshold = self.scrobble_threshold;
        let due = match &self.current_session {
            Some(session) => session.should_scrobble_at(threshold, since),
            None => false,
        };
        if due {
            let mut previous: Option<PlaySession> = None;
            std::mem::swap(&mut previous, &mut self.current_session);
            match previous {
                Some(mut session) => {
                    events.scrobble = Some(
                        (
                            session.track.clone(),
                            session.started_at_utc,
                            clone_opt_string(&session.bundle_id),
                        ),
                    );
                    session.scrobbled = true;
                    self.current_session = Some(session);
                },
                None => {},
            }
        }
        events
    }

    /// Check if the current session should scrobble (timer-driven), reading
    /// the clock. Never fails.
    pub fn check_scrobble(&mut self) -> (r: Result<MediaEvents, anyhow::Error>)
        ensures
            monitor_wf(final(self)@),
            r matches Ok(e) && exists|since: u64|
                (final(self)@, e@) == #[trigger] deadline_step(old(self)@, since),
    {
        let since = match &self.current_session {
            Some(session) => whole_secs_since(&session.last_snapshot_at),
            None => 0,
        };
        let events = self.check_scrobble_at(since);
        Ok(events)
    }

    /// Seconds until the current session is due, `since` seconds after its
    /// last snapshot.
    pub fn scrobble_wait_at(&self, since: u64) -> (r: Option<u64>)
        ensures
            match r {
                Some(w) => scrobble_wait(self@, since) == Some(w as int),
                None => scrobble_wait(self@, since) is None,
            },
    {
        proof {
            use_type_invariant(self);
        }
        let session = match &self.current_session {
            Some(s) => s,
            None => return None,
        };
        if !session.is_playing {
            return None;
        }
        let target = match session.scrobble_at(self.scrobble_threshold) {
            Some(t) => t,
            None => return None,
        };
        let played = session.played_seconds_at(since);
        if played >= target {
            Some(0)
        } else {
            Some(target - played)
        }
    }

    /// Returns when the next scrobble check should happen; `None` when no
    /// playing session is waiting to be scrobbled.
    pub fn next_scrobble_deadline(&self) -> (r: Option<Instant>)
        ensures
            scrobble_wait(self@, 0) is None ==> r is None,
            scrobble_wait(self@, 0) == Some(0int) ==> r is Some,
    {
        let since = match &self.current_session {
            Some(session) => whole_secs_since(&session.last_snapshot_at),
            None => 0,
        };
        proof {
            lemma_wait_defined_independent_of_time(self@, 0, since);
            if scrobble_wait(self@, 0) == Some(0int) {
                lemma_due_session_stays_due(self@, since);
            }
        }
        match self.scrobble_wait_at(since) {
            Some(wait) => {
                let now = instant_now();
                instant_after(&now, wait)
            },
            None => None,
        }
    }
}

/// A playing session that has reached its scrobble point stays there: no
/// wait is left however much time passes.
pub proof fn lemma_due_session_stays_due(m: MonitorView, b: u64)
    requires
        scrobble_wait(m, 0) == Some(0int),
    ensures
        scrobble_wait(m, b) == Some(0int),
{
}

/// Whether a scrobble deadline exists does not depend on how much time has
/// passed.
pub proof fn lemma_wait_defined_independent_of_time(m: MonitorView, a: u64, b: u64)
    ensures
        (scrobble_wait(m, a) is Some) == (scrobble_wait(m, b) is Some),
{
}


/// A snapshot sends a scrobble only for the session it continues, when that
/// session may be scrobbled, has not been scrobbled yet and lasts at least
/// thirty seconds; the session is then marked scrobbled.
pub proof fn lemma_snapshot_scrobble_guard(
    m: MonitorView,
    info: Option<NowPlayingInfo>,
    f: AppFilteringConfig,
    snap: Instant,
    now_utc: UtcTimestamp,
    since: u64,
)
    ensures
        snapshot_step(m, info, f, snap, now_utc, since).1.scrobble matches Some(x) ==> {
            &&& m.session matches Some(s)
            &&& s.scrobble_allowed
            &&& !s.scrobbled
            &&& s.duration >= MIN_TRACK_DURATION
            &&& x.0 == s.track
            &&& x.1 == s.started_at_utc
            &&& snapshot_step(m, info, f, snap, now_utc, since).0.session matches Some(s2)
            &&& s2.scrobbled
            &&& s2.track == s.track
        },
{
}

/// The scrobble deadline sends a scrobble only when the session may be
/// scrobbled, has not been scrobbled yet and lasts at least thirty seconds;
/// the session is then marked scrobbled.
pub proof fn lemma_deadline_scrobble_guard(m: MonitorView, since: u64)
    ensures
        deadline_step(m, since).1.scrobble matches Some(x) ==> {
            &&& m.session matches Some(s)
            &&& s.scrobble_allowed
            &&& !s.scrobbled
            &&& s.duration >= MIN_TRACK_DURATION
            &&& x.0 == s.track
            &&& deadline_step(m, since).0.session == Some(SessionView { scrobbled: true, ..s })
        },
{
}

/// A session that has been scrobbled is never scrobbled again, whatever
/// snapshot or deadline comes next.
pub proof fn lemma_scrobbled_once(
    m: MonitorView,
    info: Option<NowPlayingInfo>,
    f: AppFilteringConfig,
    snap: Instant,
    now_utc: UtcTimestamp,
    since: u64,
)
    requires
        m.session matches Some(s) && s.scrobbled,
    ensures
        snapshot_step(m, info, f, snap, now_utc, since).1.scrobble is None,
        deadline_step(m, since).1.scrobble is None,
        snapshot_step(m, info, f, snap, now_utc, since).0.session matches Some(s2) ==> (s2.track
            == m.session->0.track ==> s2.scrobbled),
{
}

/// When media stops (no snapshot), the session is cleared and no event is
/// sent.
pub proof fn lemma_stop_clears_session(
    m: MonitorView,
    f: AppFilteringConfig,
    snap: Instant,
    now_utc: UtcTimestamp,
    since: u64,
)
    ensures
        snapshot_step(m, None, f, snap, now_utc, since).0 == (MonitorView { session: None, ..m }),
        snapshot_step(m, None, f, snap, now_utc, since).1 == no_events(),
{
}

/// A snapshot from an ignored application changes nothing and sends
/// nothing.
pub proof fn lemma_ignored_app_changes_nothing(
    m: MonitorView,
    i: NowPlayingInfo,
    f: AppFilteringConfig,
    snap: Instant,
    now_utc: UtcTimestamp,
    since: u64,
)
    requires
        filter_action(opt_chars(i.bundle_id), f) == AppFilterAction::Ignore,
    ensures
        snapshot_step(m, Some(i), f, snap, now_utc, since) == (m, no_events()),
{
}

/// A snapshot from an application the user has not decided on changes
/// nothing and only asks about the application.
pub proof fn lemma_unknown_app_prompts(
    m: MonitorView,
    i: NowPlayingInfo,
    f: AppFilteringConfig,
    snap: Instant,
    now_utc: UtcTimestamp,
    since: u64,
)
    requires
        track_from_info(m.cleaner, i) is Some,
        filter_action(opt_chars(i.bundle_id), f) == AppFilterAction::PromptUser,
    ensures
        snapshot_step(m, Some(i), f, snap, now_utc, since) == (m, EventsView {
            unknown_app: opt_chars(i.bundle_id),
            ..no_events()
        }),
        opt_chars(i.bundle_id) matches Some(id) && id.len() > 0,
{
}

/// A snapshot of a new track from an allowed application starts a fresh
/// session, announces the track at once and sends no scrobble.
pub proof fn lemma_new_track_announced(
    m: MonitorView,
    i: NowPlayingInfo,
    f: AppFilteringConfig,
    snap: Instant,
    now_utc: UtcTimestamp,
    since: u64,
)
    requires
        track_from_info(m.cleaner, i) matches Some(tr) && (m.session matches Some(s) ==> s.track
            != tr.0),
        filter_action(opt_chars(i.bundle_id), f) == AppFilterAction::Allow,
    ensures
        ({
            let tr = track_from_info(m.cleaner, i)->0;
            let r = snapshot_step(m, Some(i), f, snap, now_utc, since);
            &&& r.1 == (EventsView {
                now_playing: Some((tr.0, opt_chars(i.bundle_id), tr.1)),
                ..no_events()
            })
            &&& r.0.session matches Some(s)
            &&& s.track == tr.0
            &&& !s.scrobbled
            &&& s.now_playing_sent
            &&& s.started_at_utc == now_utc
            &&& s.scrobble_allowed == tr.1
        }),
{
}

/// Once a session's track has been announced, further snapshots of the
/// same track never announce it again.
pub proof fn lemma_announced_once(
    m: MonitorView,
    info: Option<NowPlayingInfo>,
    f: AppFilteringConfig,
    snap: Instant,
    now_utc: UtcTimestamp,
    since: u64,
)
    requires
        m.session matches Some(s) && s.now_playing_sent,
        info matches Some(i) && track_from_info(m.cleaner, i) matches Some(tr) && tr.0
            == m.session->0.track,
    ensures
        snapshot_step(m, info, f, snap, now_utc, since).1.now_playing is None,
{
}

/// Tracks recognised as IDAGIO (the brand name in title, artist or album)
/// are shown but never allowed to scrobble.
pub proof fn lemma_idagio_not_scrobbled(c: TextCleanerView, i: NowPlayingInfo)
    requires
        track_from_info(c, i) is Some,
        (i.title matches Some(t) && mentions_idagio(t@)) || (i.artist matches Some(a) && mentions_idagio(a@))
            || (i.album matches Some(al) && mentions_idagio(al@)),
    ensures
        !(track_from_info(c, i)->0).1,
{
}

/// A session started from an IDAGIO snapshot may not be scrobbled, so no
/// step ever scrobbles it.
pub proof fn lemma_idagio_session_never_scrobbled(
    m: MonitorView,
    i: NowPlayingInfo,
    f: AppFilteringConfig,
    snap: Instant,
    now_utc: UtcTimestamp,
    since: u64,
)
    requires
        track_from_info(m.cleaner, i) matches Some(tr) && (m.session matches Some(s) ==> s.track
            != tr.0),
        (i.title matches Some(t) && mentions_idagio(t@)) || (i.artist matches Some(a) && mentions_idagio(a@))
            || (i.album matches Some(al) && mentions_idagio(al@)),
    ensures
        snapshot_step(m, Some(i), f, snap, now_utc, since).1.scrobble is None,
        snapshot_step(m, Some(i), f, snap, now_utc, since).0.session matches Some(s) ==> (s
            != m.session->0 ==> !s.scrobble_allowed),
        snapshot_step(m, Some(i), f, snap, now_utc, since).0.session matches Some(s) ==> (s
            != m.session->0 ==> forall|t: u64| !due_at(s, m.scrobble_threshold, t)),
{
}

/// The scrobble point is the threshold percentage of the duration, capped
/// at four minutes; with a threshold of at most 100 % it never lies past the
/// end of the track. Tracks under thirty seconds and scrobbled sessions have
/// none.
pub proof fn lemma_scrobble_target_bounds(scrobbled: bool, duration: u64, threshold: u8)
    ensures
        scrobble_target(scrobbled, duration, threshold) is None <==> (scrobbled || duration
            < MIN_TRACK_DURATION),
        scrobble_target(scrobbled, duration, threshold) matches Some(t) ==> {
            &&& 0 <= t <= SCROBBLE_TIME_THRESHOLD
            &&& t <= duration * threshold / 100
            &&& (threshold <= 100 ==> t <= duration)
        },
{
    if !scrobbled && duration >= MIN_TRACK_DURATION && threshold <= 100 {
        assert(duration * threshold <= duration * 100) by (nonlinear_arith)
            requires
                threshold <= 100,
        ;
        assert(duration * threshold / 100 <= duration) by (nonlinear_arith)
            requires
                duration * threshold <= duration * 100,
        ;
    }
    if !scrobbled && duration >= MIN_TRACK_DURATION {
        assert(duration * threshold / 100 >= 0) by (nonlinear_arith);
    }
}

/// Waiting the announced time brings a playing session to its scrobble
/// point: the deadline then scrobbles it when it may be scrobbled.
pub proof fn lemma_deadline_reaches_scrobble(m: MonitorView, since: u64, w: u64)
    requires
        scrobble_wait(m, since) == Some(w as int),
        since + w <= u64::MAX,
        m.session->0.scrobble_allowed,
    ensures
        due_at(m.session->0, m.scrobble_threshold, (since + w) as u64),
        deadline_step(m, (since + w) as u64).1.scrobble is Some,
{
    let s = m.session->0;
    lemma_scrobble_target_bounds(s.scrobbled, s.duration, m.scrobble_threshold);
}

/// The announced wait is the earliest: before it has passed the playing
/// session is not due.
pub proof fn lemma_deadline_not_early(m: MonitorView, since: u64, w: u64, d: u64)
    requires
        scrobble_wait(m, since) == Some(w as int),
        d < w,
        since + d <= u64::MAX,
    ensures
        !due_at(m.session->0, m.scrobble_threshold, (since + d) as u64),
        deadline_step(m, (since + d) as u64) == (m, no_events()),
{
    let s = m.session->0;
    lemma_scrobble_target_bounds(s.scrobbled, s.duration, m.scrobble_threshold);
}

/// Once the user allows an application, its playback is scrobbled; once the
/// user ignores an application that is not allowed, its playback is
/// ignored. Both choices only add to the lists.
pub proof fn lemma_app_choice_takes_effect(f: AppFilteringConfig, g: AppFilteringConfig, id: Seq<char>)
    requires
        id.len() > 0,
    ensures
        strings_view(g.allowed_apps@) == with_app(strings_view(f.allowed_apps@), id) ==> filter_action(
            Some(id),
            g,
        ) == AppFilterAction::Allow,
        (strings_view(g.ignored_apps@) == with_app(strings_view(f.ignored_apps@), id)
            && g.allowed_apps@ == f.allowed_apps@ && !strings_view(f.allowed_apps@).contains(id))
            ==> filter_action(Some(id), g) == AppFilterAction::Ignore,
{
    lemma_with_app_idempotent(strings_view(f.allowed_apps@), id);
    lemma_with_app_idempotent(strings_view(f.ignored_apps@), id);
}

/// Neither snapshots nor deadlines change the monitor's threshold or its
/// cleanup settings.
pub proof fn lemma_settings_unchanged(
    m: MonitorView,
    info: Option<NowPlayingInfo>,
    f: AppFilteringConfig,
    snap: Instant,
    now_utc: UtcTimestamp,
    since: u64,
)
    ensures
        snapshot_step(m, info, f, snap, now_utc, since).0.scrobble_threshold == m.scrobble_threshold,
        snapshot_step(m, info, f, snap, now_utc, since).0.cleaner == m.cleaner,
        deadline_step(m, since).0.scrobble_threshold == m.scrobble_threshold,
        deadline_step(m, since).0.cleaner == m.cleaner,
{
}

/// Processing a snapshot that keeps the arithmetic in range keeps the
/// monitor well formed: every session stays announced and in range.
pub proof fn lemma_snapshot_keeps_wf(
    m: MonitorView,
    info: Option<NowPlayingInfo>,
    f: AppFilteringConfig,
    snap: Instant,
    now_utc: UtcTimestamp,
    since: u64,
)
    requires
        monitor_wf(m),
        snapshot_fits(m.scrobble_threshold, info, f),
    ensures
        monitor_wf(snapshot_step(m, info, f, snap, now_utc, since).0),
{
}

/// The scrobble deadline keeps the monitor well formed.
pub proof fn lemma_deadline_keeps_wf(m: MonitorView, since: u64)
    requires
        monitor_wf(m),
    ensures
        monitor_wf(deadline_step(m, since).0),
{
}

/// One input to the monitor: a snapshot, or the scrobble deadline.
pub enum MonitorInput {
    Snapshot {
        info: Option<NowPlayingInfo>,
        f: AppFilteringConfig,
        snap: Instant,
        now_utc: UtcTimestamp,
        since: u64,
    },
    Deadline { since: u64 },
}

/// How the monitor reacts to one input.
pub open spec fn input_step(m: MonitorView, input: MonitorInput) -> (MonitorView, EventsView) {
    match input {
        MonitorInput::Snapshot { info, f, snap, now_utc, since } => snapshot_step(
            m,
            info,
            f,
            snap,
            now_utc,
            since,
        ),
        MonitorInput::Deadline { since } => deadline_step(m, since),
    }
}

/// The monitor's state after a sequence of inputs.
pub open spec fn run_inputs(m: MonitorView, inputs: Seq<MonitorInput>) -> MonitorView
    decreases inputs.len(),
{
    if inputs.len() == 0 {
        m
    } else {
        input_step(run_inputs(m, inputs.drop_last()), inputs.last()).0
    }
}

/// The monitor holds a session of the track `t`.
pub open spec fn holds_track(m: MonitorView, t: TrackView) -> bool {
    m.session matches Some(x) && x.track == t
}

/// While the session of a track stays in place, every later state holds it
/// scrobbled once it has been.
proof fn lemma_scrobbled_session_stays_scrobbled(
    m: MonitorView,
    inputs: Seq<MonitorInput>,
    k: int,
)
    requires
        m.session matches Some(s) && s.scrobbled,
        0 <= k <= inputs.len(),
        forall|j: int|
            0 <= j <= k ==> holds_track(#[trigger] run_inputs(m, inputs.take(j)), m.session->0.track),
    ensures
        run_inputs(m, inputs.take(k)).session matches Some(x) && x.scrobbled,
    decreases k,
{
    if k == 0 {
        assert(inputs.take(0) =~= Seq::<MonitorInput>::empty());
    } else {
        lemma_scrobbled_session_stays_scrobbled(m, inputs, k - 1);
        let prev = run_inputs(m, inputs.take(k - 1));
        assert(inputs.take(k).drop_last() =~= inputs.take(k - 1));
        assert(inputs.take(k).last() == inputs[k - 1]);
        assert(run_inputs(m, inputs.take(k)) == input_step(prev, inputs[k - 1]).0);
        assert(holds_track(run_inputs(m, inputs.take(k - 1)), m.session->0.track));
        assert(holds_track(run_inputs(m, inputs.take(k)), m.session->0.track));
        match inputs[k - 1] {
            MonitorInput::Snapshot { info, f, snap, now_utc, since } => {
                lemma_scrobbled_once(prev, info, f, snap, now_utc, since);
            },
            MonitorInput::Deadline { since } => {},
        }
    }
}

/// Once a session is scrobbled, no later snapshot or deadline scrobbles it
/// again: the next scrobble can only come after a snapshot of another track,
/// or a stop, has replaced the session.
pub proof fn lemma_no_second_scrobble(m: MonitorView, inputs: Seq<MonitorInput>, k: int)
    requires
        m.session matches Some(s) && s.scrobbled,
        0 <= k < inputs.len(),
        forall|j: int|
            0 <= j <= k ==> holds_track(#[trigger] run_inputs(m, inputs.take(j)), m.session->0.track),
    ensures
        input_step(run_inputs(m, inputs.take(k)), inputs[k]).1.scrobble is None,
{
    lemma_scrobbled_session_stays_scrobbled(m, inputs, k);
    let cur = run_inputs(m, inputs.take(k));
    match inputs[k] {
        MonitorInput::Snapshot { info, f, snap, now_utc, since } => {
            lemma_scrobbled_once(cur, info, f, snap, now_utc, since);
        },
        MonitorInput::Deadline { since } => {
            lemma_scrobbled_once(cur, None, arbitrary(), arbitrary(), arbitrary(), since);
        },
    }
}

/// After any snapshot or deadline that sends a scrobble, no later input
/// scrobbles again while the session of that track stays in place: in
/// particular the next scrobble check sends nothing.
pub proof fn lemma_no_scrobble_after_scrobble(
    m: MonitorView,
    first: MonitorInput,
    inputs: Seq<MonitorInput>,
    k: int,
)
    requires
        input_step(m, first).1.scrobble is Some,
        0 <= k < inputs.len(),
        forall|j: int|
            0 <= j <= k ==> holds_track(
                #[trigger] run_inputs(input_step(m, first).0, inputs.take(j)),
                m.session->0.track,
            ),
    ensures
        input_step(m, first).0.session matches Some(s) && s.scrobbled && s.track == m.session->0.track,
        input_step(run_inputs(input_step(m, first).0, inputs.take(k)), inputs[k]).1.scrobble is None,
{
    match first {
        MonitorInput::Snapshot { info, f, snap, now_utc, since } => {
            lemma_snapshot_scrobble_guard(m, info, f, snap, now_utc, since);
        },
        MonitorInput::Deadline { since } => {
            lemma_deadline_scrobble_guard(m, since);
        },
    }
    lemma_no_second_scrobble(input_step(m, first).0, inputs, k);
}

/// A text that does not hold `IDAGIO` is not recognised as IDAGIO.
proof fn lemma_no_brand_no_idagio(s: Seq<char>)
    requires
        !crate::text::contains_seq(s, "IDAGIO"@),
    ensures
        !mentions_idagio(s),
{
    crate::text::lemma_find_from_first(s, "IDAGIO"@, 0);
}

/// Metadata of an ordinary source (no `IDAGIO` in title, artist or album)
/// whose artist is not blank is kept as reported: the track's artist and
/// title are the reported ones, only cleaned, never split at `" - "`; its
/// album is the cleaned album, it carries no catalog number and it may be
/// scrobbled.
pub proof fn lemma_reported_artist_and_title_kept(c: TextCleanerView, i: NowPlayingInfo)
    requires
        i.title matches Some(t) && !crate::text::contains_seq(t@, "IDAGIO"@),
        i.artist matches Some(a) && !crate::text::contains_seq(a@, "IDAGIO"@) && !all_white_space(a@),
        i.album matches Some(al) ==> !crate::text::contains_seq(al@, "IDAGIO"@),
    ensures
        ({
            let t = i.title->0@;
            let a = i.artist->0@;
            track_from_info(c, i) == Some(
                (
                    TrackView {
                        title: cleaned(c.enabled, c.patterns, t),
                        artist: cleaned(c.enabled, c.patterns, a),
                        album: match i.album {
                            Some(al) => Some(cleaned(c.enabled, c.patterns, al@)),
                            None => None,
                        },
                        duration: i.duration,
                        upc: None,
                        lastfm_album_art_url: None,
                    },
                    true,
                ),
            )
        }),
{
    lemma_no_brand_no_idagio(i.title->0@);
    lemma_no_brand_no_idagio(i.artist->0@);
    if let Some(al) = i.album {
        lemma_no_brand_no_idagio(al@);
    }
}

/// A blank artist with a title `X - Y` (first `" - "`, both sides
/// non-empty) from an ordinary source gives artist `X` and title `Y`,
/// cleaned.
pub proof fn lemma_blank_artist_title_split(c: TextCleanerView, i: NowPlayingInfo, p: int)
    requires
        i.title matches Some(t) && !crate::text::contains_seq(t@, "IDAGIO"@),
        i.artist matches Some(a) && !crate::text::contains_seq(a@, "IDAGIO"@) && all_white_space(a@),
        i.album matches Some(al) ==> !crate::text::contains_seq(al@, "IDAGIO"@),
        occurs_at(i.title->0@, " - "@, p),
        forall|q: int| 0 <= q < p ==> !occurs_at(i.title->0@, " - "@, q),
        p > 0,
        p + 3 < i.title->0@.len(),
    ensures
        ({
            let t = i.title->0@;
            &&& track_from_info(c, i) matches Some(tr)
            &&& tr.0.artist == cleaned(c.enabled, c.patterns, t.subrange(0, p))
            &&& tr.0.title == cleaned(c.enabled, c.patterns, t.subrange(p + 3, t.len() as int))
            &&& tr.1
        }),
{
    lemma_no_brand_no_idagio(i.title->0@);
    lemma_no_brand_no_idagio(i.artist->0@);
    if let Some(al) = i.album {
        lemma_no_brand_no_idagio(al@);
    }
    reveal_strlit(" - ");
    crate::text::lemma_find_from_first(i.title->0@, " - "@, 0);
    let t = i.title->0@;
    assert(find_first(t, " - "@) == Some(p)) by {
        if let Some(q) = find_first(t, " - "@) {
            if q > p {
                assert(false);
            }
        }
    }
}

/// Applications in neither list are scrobbled when prompting is off and
/// asked about when it is on; listed applications follow their list, the
/// allowed list first.
pub proof fn lemma_filter_of_listed_and_new_apps(id: Seq<char>, f: AppFilteringConfig)
    requires
        id.len() > 0,
    ensures
        strings_view(f.allowed_apps@).contains(id) ==> filter_action(Some(id), f) == AppFilterAction::Allow,
        !strings_view(f.allowed_apps@).contains(id) && strings_view(f.ignored_apps@).contains(id)
            ==> filter_action(Some(id), f) == AppFilterAction::Ignore,
        !strings_view(f.allowed_apps@).contains(id) && !strings_view(f.ignored_apps@).contains(id)
            ==> filter_action(Some(id), f) == (if f.prompt_for_new_apps {
            AppFilterAction::PromptUser
        } else {
            AppFilterAction::Allow
        }),
{
}

/// With prompting off, playback from an application in neither list is
/// handled like allowed playback: a new track is announced as may be
/// scrobbled.
pub proof fn lemma_unlisted_app_announced_without_prompting(
    m: MonitorView,
    i: NowPlayingInfo,
    f: AppFilteringConfig,
    snap: Instant,
    now_utc: UtcTimestamp,
    since: u64,
)
    requires
        !f.prompt_for_new_apps,
        i.bundle_id matches Some(b) && b@.len() > 0 && !strings_view(f.allowed_apps@).contains(b@)
            && !strings_view(f.ignored_apps@).contains(b@),
        track_from_info(m.cleaner, i) matches Some(tr) && (m.session matches Some(s) ==> s.track
            != tr.0),
    ensures
        ({
            let tr = track_from_info(m.cleaner, i)->0;
            snapshot_step(m, Some(i), f, snap, now_utc, since).1.now_playing == Some(
                (tr.0, opt_chars(i.bundle_id), tr.1),
            )
        }),
{
    lemma_filter_of_listed_and_new_apps(i.bundle_id->0@, f);
}

} // verus!
