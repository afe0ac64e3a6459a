use std::time::Instant;

use osx_scrobbler::clock::UtcTimestamp;
use osx_scrobbler::config::{AppFilteringConfig, CleanupConfig};
use osx_scrobbler::media_monitor::{AppFilterAction, MediaMonitor, NowPlayingInfo};
use osx_scrobbler::text_cleanup::TextCleaner;
use osx_scrobbler::track::Track;

fn cleaner() -> TextCleaner {
    TextCleaner::new(&CleanupConfig {
        enabled: true,
        patterns: vec![r"\s*\[Explicit\]".to_string()],
    })
}

fn filtering() -> AppFilteringConfig {
    AppFilteringConfig {
        scrobble_unknown: true,
        allowed_apps: vec!["com.apple.Music".to_string()],
        ignored_apps: vec!["com.apple.Safari".to_string()],
        prompt_for_new_apps: true,
    }
}

fn info(title: &str, artist: &str, elapsed: u64, duration: u64, bundle: &str) -> NowPlayingInfo {
    NowPlayingInfo {
        is_playing: Some(true),
        title: Some(title.to_string()),
        artist: Some(artist.to_string()),
        album: Some("Album".to_string()),
        elapsed_time: Some(elapsed),
        duration: Some(duration),
        bundle_id: Some(bundle.to_string()),
    }
}

const T0: UtcTimestamp = UtcTimestamp { secs: 1_700_000_000, nanos: 0 };

fn step(m: &mut MediaMonitor, i: Option<NowPlayingInfo>, since: u64) -> osx_scrobbler::media_monitor::MediaEvents {
    m.process_snapshot(i, &filtering(), Instant::now(), T0, since)
}

#[test]
fn new_track_is_announced_then_scrobbled_once() {
    let mut m = MediaMonitor::new(50, cleaner());
    let e = step(&mut m, Some(info("Song [Explicit]", "Band", 0, 200, "com.apple.Music")), 0);
    let (track, bundle, allowed) = e.now_playing.expect("announced");
    assert_eq!(track.title, "Song");
    assert_eq!(track.artist, "Band");
    assert_eq!(track.album, Some("Album".to_string()));
    assert_eq!(track.duration, Some(200));
    assert_eq!(bundle, Some("com.apple.Music".to_string()));
    assert!(allowed);
    assert!(e.scrobble.is_none());

    // Same track, not yet at 50 %: nothing.
    let e = step(&mut m, Some(info("Song [Explicit]", "Band", 99, 200, "com.apple.Music")), 0);
    assert!(e.now_playing.is_none() && e.scrobble.is_none() && e.unknown_app.is_none());

    // At 50 % (100 s): scrobbled with the session's start time.
    let e = step(&mut m, Some(info("Song [Explicit]", "Band", 100, 200, "com.apple.Music")), 0);
    let (track, started, bundle) = e.scrobble.expect("scrobbled");
    assert_eq!(track.title, "Song");
    assert_eq!(started, T0);
    assert_eq!(bundle, Some("com.apple.Music".to_string()));
    assert!(e.now_playing.is_none());

    // Never twice.
    let e = step(&mut m, Some(info("Song [Explicit]", "Band", 190, 200, "com.apple.Music")), 50);
    assert!(e.scrobble.is_none());
    assert!(m.check_scrobble_at(1000).scrobble.is_none());
}

#[test]
fn time_since_snapshot_counts_while_playing() {
    let mut m = MediaMonitor::new(50, cleaner());
    step(&mut m, Some(info("S", "A", 0, 200, "com.apple.Music")), 0);
    let e = step(&mut m, Some(info("S", "A", 60, 200, "com.apple.Music")), 40);
    assert!(e.scrobble.is_some());
}

#[test]
fn short_tracks_are_never_scrobbled() {
    let mut m = MediaMonitor::new(50, cleaner());
    step(&mut m, Some(info("Jingle", "A", 0, 29, "com.apple.Music")), 0);
    let e = step(&mut m, Some(info("Jingle", "A", 29, 29, "com.apple.Music")), 1000);
    assert!(e.scrobble.is_none());
    assert!(m.check_scrobble_at(1000).scrobble.is_none());
    assert_eq!(m.scrobble_wait_at(0), None);
}

#[test]
fn scrobble_point_is_capped_at_four_minutes() {
    let mut m = MediaMonitor::new(50, cleaner());
    step(&mut m, Some(info("Long", "A", 0, 1000, "com.apple.Music")), 0);
    assert_eq!(m.scrobble_wait_at(0), Some(240));
    assert_eq!(m.scrobble_wait_at(200), Some(40));
    assert_eq!(m.scrobble_wait_at(300), Some(0));
    let e = step(&mut m, Some(info("Long", "A", 239, 1000, "com.apple.Music")), 0);
    assert!(e.scrobble.is_none());
    let e = step(&mut m, Some(info("Long", "A", 240, 1000, "com.apple.Music")), 0);
    assert!(e.scrobble.is_some());
}

#[test]
fn deadline_scrobbles_after_the_announced_wait() {
    let mut m = MediaMonitor::new(50, cleaner());
    step(&mut m, Some(info("S", "A", 10, 100, "com.apple.Music")), 0);
    let wait = m.scrobble_wait_at(0).expect("waiting");
    assert_eq!(wait, 40);
    assert!(m.check_scrobble_at(wait - 1).scrobble.is_none());
    let e = m.check_scrobble_at(wait);
    assert!(e.scrobble.is_some());
    assert_eq!(m.scrobble_wait_at(0), None);
}

#[test]
fn paused_session_has_no_deadline() {
    let mut m = MediaMonitor::new(50, cleaner());
    let mut i = info("S", "A", 10, 100, "com.apple.Music");
    i.is_playing = Some(false);
    step(&mut m, Some(i), 0);
    assert_eq!(m.scrobble_wait_at(0), None);
    assert!(m.next_scrobble_deadline().is_none());
    // Paused time does not count.
    assert!(m.check_scrobble_at(1000).scrobble.is_none());
}

#[test]
fn idagio_tracks_are_shown_but_never_scrobbled() {
    let mut m = MediaMonitor::new(50, cleaner());
    let i = info(
        " - Perpetual Night: 17th Century Airs and Songs 3149020933848",
        "",
        0,
        200,
        "com.idagio.app",
    );
    let mut i = i;
    i.album = Some("IDAGIO".to_string());
    let mut f = filtering();
    f.allowed_apps.push("com.idagio.app".to_string());
    let e = m.process_snapshot(Some(i), &f, Instant::now(), T0, 0);
    let (track, _, allowed) = e.now_playing.expect("announced");
    assert!(!allowed);
    assert_eq!(track.title, "Perpetual Night: 17th Century Airs and Songs");
    assert_eq!(track.artist, "");
    assert_eq!(track.upc, Some("3149020933848".to_string()));
    let mut i2 = info(
        " - Perpetual Night: 17th Century Airs and Songs 3149020933848",
        "",
        199,
        200,
        "com.idagio.app",
    );
    i2.album = Some("IDAGIO".to_string());
    let e = m.process_snapshot(Some(i2), &f, Instant::now(), T0, 100);
    assert!(e.scrobble.is_none());
    assert!(m.check_scrobble_at(1000).scrobble.is_none());
}

#[test]
fn idagio_title_without_album_uses_title_as_album() {
    let mut m = MediaMonitor::new(50, cleaner());
    let mut i = info("Work | Stream on IDAGIO | IDAGIO", "", 0, 200, "com.apple.Music");
    i.album = None;
    let e = step(&mut m, Some(i), 0);
    let (track, _, allowed) = e.now_playing.expect("announced");
    assert!(!allowed);
    assert_eq!(track.title, "Work");
    assert_eq!(track.album, Some("Work".to_string()));
}

#[test]
fn generic_artist_title_split() {
    let mut m = MediaMonitor::new(50, cleaner());
    let e = step(&mut m, Some(info("Band - Song", " ", 0, 200, "com.apple.Music")), 0);
    let (track, _, allowed) = e.now_playing.expect("announced");
    assert!(allowed);
    assert_eq!(track.artist, "Band");
    assert_eq!(track.title, "Song");
    // Nothing to split without both parts.
    let mut m = MediaMonitor::new(50, cleaner());
    let e = step(&mut m, Some(info(" - Song", "", 0, 200, "com.apple.Music")), 0);
    let (track, _, _) = e.now_playing.expect("announced");
    assert_eq!(track.artist, "");
    assert_eq!(track.title, "- Song");
}

#[test]
fn ignored_app_changes_nothing() {
    let mut m = MediaMonitor::new(50, cleaner());
    let e = step(&mut m, Some(info("S", "A", 0, 200, "com.apple.Safari")), 0);
    assert!(e.now_playing.is_none() && e.scrobble.is_none() && e.unknown_app.is_none());
    assert_eq!(m.scrobble_wait_at(0), None);
}

#[test]
fn unknown_app_prompts_user() {
    let mut m = MediaMonitor::new(50, cleaner());
    let e = step(&mut m, Some(info("S", "A", 0, 200, "com.spotify.client")), 0);
    assert_eq!(e.unknown_app, Some("com.spotify.client".to_string()));
    assert!(e.now_playing.is_none());
    let mut f = filtering();
    f.allow_app(&"com.spotify.client".to_string());
    let e = m.process_snapshot(Some(info("S", "A", 0, 200, "com.spotify.client")), &f, Instant::now(), T0, 0);
    assert!(e.now_playing.is_some());
}

#[test]
fn unknown_bundle_follows_scrobble_unknown() {
    let mut m = MediaMonitor::new(50, cleaner());
    let mut i = info("S", "A", 0, 200, "");
    i.bundle_id = None;
    let mut f = filtering();
    f.scrobble_unknown = false;
    let e = m.process_snapshot(Some(i), &f, Instant::now(), T0, 0);
    assert!(e.now_playing.is_none() && e.unknown_app.is_none());
    let mut i = info("S", "A", 0, 200, "");
    i.bundle_id = None;
    let e = step(&mut m, Some(i), 0);
    assert!(e.now_playing.is_some());
}

#[test]
fn stop_clears_the_session() {
    let mut m = MediaMonitor::new(50, cleaner());
    step(&mut m, Some(info("S", "A", 0, 200, "com.apple.Music")), 0);
    let e = step(&mut m, None, 0);
    assert!(e.now_playing.is_none() && e.scrobble.is_none());
    assert_eq!(m.scrobble_wait_at(0), None);
    // The same track starts a new session and is announced again.
    let e = step(&mut m, Some(info("S", "A", 0, 200, "com.apple.Music")), 0);
    assert!(e.now_playing.is_some());
}

#[test]
fn missing_title_is_not_a_track() {
    let mut m = MediaMonitor::new(50, cleaner());
    let mut i = info("S", "A", 0, 200, "com.apple.Music");
    i.title = None;
    let e = step(&mut m, Some(i), 0);
    assert!(e.now_playing.is_none() && e.scrobble.is_none() && e.unknown_app.is_none());
}

#[test]
fn oversized_duration_is_refused() {
    let mut m = MediaMonitor::new(50, cleaner());
    // An ignored application's huge duration is handled like any other.
    let e = step(&mut m, Some(info("S", "A", 0, u64::MAX, "com.apple.Safari")), 0);
    assert!(e.now_playing.is_none() && e.scrobble.is_none());
    let f = filtering();
    assert!(m.accepts_snapshot(&Some(info("S", "A", 0, 200, "com.apple.Music")), &f));
    assert!(!m.accepts_snapshot(&Some(info("S", "A", 0, u64::MAX, "com.apple.Music")), &f));
    assert!(m.accepts_snapshot(&None, &f));
    // Ignored, prompting or untitled snapshots start no session: always accepted.
    assert!(m.accepts_snapshot(&Some(info("S", "A", 0, u64::MAX, "com.apple.Safari")), &f));
    assert!(m.accepts_snapshot(&Some(info("S", "A", 0, u64::MAX, "com.other")), &f));
    let mut untitled = info("S", "A", 0, u64::MAX, "com.apple.Music");
    untitled.title = None;
    assert!(m.accepts_snapshot(&Some(untitled), &f));
}

#[test]
fn clock_reading_entry_points() {
    let mut m = MediaMonitor::new(50, cleaner());
    assert!(m.next_scrobble_deadline().is_none());
    let e = m
        .handle_media_change(Some(info("S", "A", 0, 200, "com.apple.Music")), &filtering())
        .expect("never fails");
    assert!(e.now_playing.is_some());
    let d = m.next_scrobble_deadline().expect("deadline");
    assert!(d > Instant::now());
    let e = m.check_scrobble().expect("never fails");
    assert!(e.scrobble.is_none());
}

#[test]
fn filter_action_values_are_distinct() {
    assert_ne!(AppFilterAction::Allow, AppFilterAction::Ignore);
    assert_ne!(AppFilterAction::Ignore, AppFilterAction::PromptUser);
}

#[test]
fn track_equality_is_field_wise() {
    let a = Track {
        title: "T".to_string(),
        artist: "A".to_string(),
        album: None,
        duration: Some(1),
        upc: None,
        lastfm_album_art_url: None,
    };
    let b = a.clone();
    assert!(a.same_track(&b));
    let mut c = a.clone();
    c.duration = Some(2);
    assert!(!a.same_track(&c));
}

// A new session that starts past its scrobble point has a deadline due now.
#[test]
fn session_past_its_point_has_a_deadline() {
    let mut m = MediaMonitor::new(50, cleaner());
    step(&mut m, Some(info("Late", "A", 150, 200, "com.apple.Music")), 0);
    assert_eq!(m.scrobble_wait_at(0), Some(0));
    let d = m.next_scrobble_deadline().expect("deadline");
    assert!(d <= Instant::now());
    assert!(m.check_scrobble().expect("never fails").scrobble.is_some());
}

// After a scrobble, neither deadlines nor snapshots of the same track
// scrobble again; a different track starts afresh.
#[test]
fn no_second_scrobble_until_the_track_changes() {
    let mut m = MediaMonitor::new(50, cleaner());
    step(&mut m, Some(info("S", "A", 0, 100, "com.apple.Music")), 0);
    assert!(m.check_scrobble_at(60).scrobble.is_some());
    for since in [0, 60, 1000, u64::MAX] {
        assert!(m.check_scrobble_at(since).scrobble.is_none());
        assert!(m.check_scrobble().expect("never fails").scrobble.is_none());
    }
    let e = step(&mut m, Some(info("S", "A", 99, 100, "com.apple.Music")), 500);
    assert!(e.scrobble.is_none());
    let e = step(&mut m, Some(info("T", "A", 0, 100, "com.apple.Music")), 0);
    assert!(e.now_playing.is_some());
    assert!(m.check_scrobble_at(50).scrobble.is_some());
}
