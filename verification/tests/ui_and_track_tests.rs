use std::io::Cursor;

use osx_scrobbler::clock::{utc_from_epoch_offset, UtcTimestamp};
use osx_scrobbler::config::AppFilteringConfig;
use osx_scrobbler::enrichment::EnrichmentUpdate;
use osx_scrobbler::track::{listenbrainz_accepts_artist, parse_display_string, Track};
use osx_scrobbler::ui::album_art::{
    album_art_outcome, create_album_art_channel, create_album_art_window, validate_album_art_image,
    AlbumArtError, AlbumArtUpdate,
};
use osx_scrobbler::ui::tray::{love_button_text, TrayState};

fn track(artist: &str, title: &str) -> Track {
    Track {
        title: title.to_string(),
        artist: artist.to_string(),
        album: None,
        duration: None,
        upc: None,
        lastfm_album_art_url: None,
    }
}

#[test]
fn display_string_and_back() {
    let t = track("Massive Attack", "Teardrop");
    let shown = t.display_string();
    assert_eq!(shown, "Massive Attack - Teardrop");
    assert_eq!(
        parse_display_string(&shown),
        Some(("Massive Attack".to_string(), "Teardrop".to_string()))
    );
    assert_eq!(track("", "Solo").display_string(), "Solo");
    assert_eq!(parse_display_string("Solo"), None);
    // The first separator splits; the rest stays in the title.
    assert_eq!(
        parse_display_string("A - B - C"),
        Some(("A".to_string(), "B - C".to_string()))
    );
}

#[test]
fn idagio_art_address() {
    let mut t = track("", "Work");
    assert_eq!(t.idagio_album_art_url(), None);
    t.upc = Some("5020926113221".to_string());
    assert_eq!(
        t.idagio_album_art_url(),
        Some("https://idagio-images.global.ssl.fastly.net/albums/5020926113221/main.jpg".to_string())
    );
}

#[test]
fn listenbrainz_needs_three_bytes_of_artist() {
    assert!(!listenbrainz_accepts_artist(""));
    assert!(!listenbrainz_accepts_artist("AB"));
    assert!(listenbrainz_accepts_artist("ABC"));
    // Bytes, not characters: two characters of two bytes each are enough.
    assert!(listenbrainz_accepts_artist("\u{e9}\u{e9}"));
}

#[test]
fn tray_reads_back_what_was_written() {
    let mut tray = TrayState::default();
    assert_eq!(tray.current_track(), None);
    assert_eq!(tray.update_now_playing(Some("A - B".to_string())), "Now Playing: A - B");
    assert_eq!(tray.current_track(), Some("A - B".to_string()));
    assert_eq!(tray.update_last_scrobbled(None), "Last Scrobbled: None");
    assert_eq!(tray.current_track(), Some("A - B".to_string()));
    let (text, enabled) = tray.update_album_art(Some("https://x/y.jpg".to_string()));
    assert_eq!(text, "\u{1F5BC}\u{FE0F} Album Art Available");
    assert!(enabled);
    assert_eq!(tray.album_art_url(), Some("https://x/y.jpg".to_string()));
    let (text, enabled) = tray.update_album_art(None);
    assert_eq!(text, "");
    assert!(!enabled);
    assert_eq!(tray.album_art_url(), None);
    assert_eq!(tray.update_now_playing(None), "Now Playing: None");
    assert_eq!(tray.current_track(), None);
}

#[test]
fn love_button_texts() {
    assert_eq!(love_button_text(true), "\u{2665}\u{FE0F} Loved");
    assert_eq!(love_button_text(false), "\u{1F90D} Love");
}

#[test]
fn allowing_an_app_twice_adds_it_once() {
    let mut f = AppFilteringConfig {
        scrobble_unknown: true,
        allowed_apps: vec!["a".to_string()],
        ignored_apps: vec![],
        prompt_for_new_apps: true,
    };
    f.allow_app(&"b".to_string());
    f.allow_app(&"b".to_string());
    f.allow_app(&"a".to_string());
    assert_eq!(f.allowed_apps, vec!["a".to_string(), "b".to_string()]);
    f.ignore_app(&"c".to_string());
    f.ignore_app(&"c".to_string());
    assert_eq!(f.ignored_apps, vec!["c".to_string()]);
    assert_eq!(f.allowed_apps.len(), 2);
}

#[test]
fn album_art_channel_delivers_updates() {
    let (tx, rx) = create_album_art_channel();
    // A fresh channel holds nothing.
    assert!(matches!(rx.try_recv(), Err(std::sync::mpsc::TryRecvError::Empty)));
    tx.send(AlbumArtUpdate { url: "https://x/a.png".to_string() }).unwrap();
    assert_eq!(rx.try_recv().unwrap().url, "https://x/a.png");
    assert!(rx.try_recv().is_err());
}

#[test]
fn album_art_images_are_validated() {
    assert!(validate_album_art_image(b"not an image").is_err());
    assert!(validate_album_art_image(&[]).is_err());
    let img = image::RgbImage::new(3, 2);
    let mut png = Cursor::new(Vec::new());
    img.write_to(&mut png, image::ImageFormat::Png).unwrap();
    let bytes = png.into_inner();
    assert_eq!(validate_album_art_image(&bytes).unwrap(), (3, 2));
    assert!(create_album_art_window(&bytes).is_ok());
}

#[test]
fn enrichment_update_carries_the_track() {
    let update = EnrichmentUpdate::TrackUpdated(track("A", "B"));
    match update {
        EnrichmentUpdate::TrackUpdated(t) => assert_eq!(t, track("A", "B")),
    }
}

#[test]
fn album_art_outcome_passes_the_decoder_answer_on() {
    assert_eq!(album_art_outcome(Ok((4, 5))).unwrap(), (4, 5));
    let err = image::ImageError::IoError(std::io::Error::new(std::io::ErrorKind::Other, "x"));
    assert!(matches!(album_art_outcome(Err(err)), Err(AlbumArtError::Decode(_))));
}

#[test]
fn utc_timestamps_around_the_epoch() {
    assert_eq!(
        utc_from_epoch_offset(Ok((1_700_000_000, 5))),
        UtcTimestamp { secs: 1_700_000_000, nanos: 5 }
    );
    assert_eq!(utc_from_epoch_offset(Err((0, 0))), UtcTimestamp { secs: 0, nanos: 0 });
    // 1.25 s before the epoch.
    assert_eq!(
        utc_from_epoch_offset(Err((1, 250_000_000))),
        UtcTimestamp { secs: -2, nanos: 750_000_000 }
    );
    assert_eq!(utc_from_epoch_offset(Err((3, 0))), UtcTimestamp { secs: -3, nanos: 0 });
    assert_eq!(utc_from_epoch_offset(Ok((u64::MAX, 1))), UtcTimestamp { secs: i64::MAX, nanos: 1 });
    assert_eq!(utc_from_epoch_offset(Err((u64::MAX, 1))), UtcTimestamp { secs: i64::MIN, nanos: 0 });
}
