use osx_scrobbler::config::{AppFilteringConfig, CleanupConfig, Config, LastFmConfig};
use osx_scrobbler::metadata_enricher::{
    album_search_url, barcode_search_url, enrich_from_musicbrainz, lastfm_album_info_url,
    lastfm_art_lookup, lastfm_art_store, looks_like_barcode, match_release_track,
    return_and_cache, select_album_art, AlbumArtCache, ArtLookup,
    EnrichAction, EnrichEvent, LastFmAlbum, LastFmAlbumResponse, LastFmImage, MBMedia, MBRelease,
    MBReleaseSearchResult, MBTrack,
};
use osx_scrobbler::track::Track;

fn lastfm_config(enabled: bool) -> Config {
    Config {
        scrobble_threshold: 50,
        lastfm: Some(LastFmConfig {
            enabled,
            api_key: "KEY".to_string(),
            api_secret: "SECRET".to_string(),
            session_key: String::new(),
        }),
        listenbrainz: vec![],
        cleanup: CleanupConfig { enabled: false, patterns: vec![] },
        app_filtering: AppFilteringConfig {
            scrobble_unknown: true,
            allowed_apps: vec![],
            ignored_apps: vec![],
            prompt_for_new_apps: false,
        },
    }
}

#[test]
fn test_enrich_track_with_no_album() {
    let mut track = Track {
        title: "Canon and Gigue in D major".to_string(),
        artist: "Johann Pachelbel".to_string(),
        album: None,
        duration: Some(300),
        upc: None,
        lastfm_album_art_url: None,
    };

    // Should not error, but won't enrich without album name or UPC
    let _ = enrich_from_musicbrainz(&mut track, None, EnrichEvent::Start);
    assert_eq!(track.album, None);
}

#[test]
fn test_enrich_requires_album_for_matching() {
    let mut track = Track {
        title: "Perpetual Night: 17th Century Airs and Songs".to_string(),
        artist: "".to_string(),
        album: Some("Some Album".to_string()),
        duration: Some(180),
        upc: None,
        lastfm_album_art_url: None,
    };

    // Will try to enrich, result depends on MusicBrainz data
    let action = enrich_from_musicbrainz(&mut track, None, EnrichEvent::Start);
    assert!(matches!(action, EnrichAction::SearchAlbum { ref album, duration_secs: 180 } if album == "Some Album"));
    let _ = enrich_from_musicbrainz(&mut track, None, EnrichEvent::AlbumSearched { found: None });
    // Track will have album set (either as given or enriched)
    assert!(track.album.is_some());
}

fn plain_track(album: Option<&str>, upc: Option<&str>, duration: Option<u64>) -> Track {
    Track {
        title: "Title".to_string(),
        artist: "Artist".to_string(),
        album: album.map(|a| a.to_string()),
        duration,
        upc: upc.map(|u| u.to_string()),
        lastfm_album_art_url: None,
    }
}

#[test]
fn no_duration_means_no_lookup() {
    let mut track = plain_track(Some("Album"), Some("012345678901"), None);
    let action = enrich_from_musicbrainz(&mut track, None, EnrichEvent::Start);
    assert!(matches!(action, EnrichAction::Done));
    assert_eq!(track, plain_track(Some("Album"), Some("012345678901"), None));
}

#[test]
fn barcode_of_twelve_or_fourteen_digits_is_searched_first() {
    let mut track = plain_track(Some("Album"), Some("012345678901"), Some(200));
    let action = enrich_from_musicbrainz(&mut track, None, EnrichEvent::Start);
    assert!(matches!(action, EnrichAction::SearchBarcode { ref barcode, duration_secs: 200 } if barcode == "012345678901"));

    let mut track = plain_track(None, Some("01234567890123"), Some(200));
    let action = enrich_from_musicbrainz(&mut track, None, EnrichEvent::Start);
    assert!(matches!(action, EnrichAction::SearchBarcode { .. }));
}

#[test]
fn thirteen_digit_upc_is_searched_as_barcode() {
    let mut track = Track {
        title: "Cannon: Lord of Light, String Quartet & 5 Chansons de femme".to_string(),
        artist: "".to_string(),
        album: None,
        duration: Some(300),
        upc: Some("5020926113221".to_string()),
        lastfm_album_art_url: None,
    };
    let action = enrich_from_musicbrainz(&mut track, None, EnrichEvent::Start);
    assert!(matches!(action, EnrichAction::SearchBarcode { ref barcode, duration_secs: 300 } if barcode == "5020926113221"));
    assert_eq!(
        barcode_search_url("5020926113221"),
        "https://musicbrainz.org/ws/2/release?query=barcode%3A5020926113221&fmt=json&limit=5&inc=recordings"
    );
}

#[test]
fn non_barcode_catalog_number_falls_back_to_album() {
    let mut track = plain_track(Some("Album"), Some("12345678901"), Some(200));
    let action = enrich_from_musicbrainz(&mut track, None, EnrichEvent::Start);
    assert!(matches!(action, EnrichAction::SearchAlbum { ref album, duration_secs: 200 } if album == "Album"));
    let mut track = plain_track(Some(""), Some("12345678901a"), Some(200));
    let action = enrich_from_musicbrainz(&mut track, None, EnrichEvent::Start);
    assert!(matches!(action, EnrichAction::Done));
}

#[test]
fn barcode_helper() {
    assert!(looks_like_barcode("012345678901"));
    assert!(looks_like_barcode("01234567890123"));
    assert!(looks_like_barcode("0123456789012"));
    assert!(!looks_like_barcode("01234567890"));
    assert!(!looks_like_barcode("012345678901234"));
    assert!(!looks_like_barcode("0123456789a1"));
    assert!(!looks_like_barcode(""));
}

#[test]
fn barcode_match_updates_track_and_asks_for_art() {
    let config = lastfm_config(true);
    let mut track = plain_track(Some("Album"), Some("012345678901"), Some(200));
    let action = enrich_from_musicbrainz(
        &mut track,
        Some(&config),
        EnrichEvent::BarcodeSearched {
            duration_secs: 200,
            found: Some(("Real Album".to_string(), "Real Title".to_string())),
        },
    );
    assert_eq!(track.album, Some("Real Album".to_string()));
    assert_eq!(track.title, "Real Title");
    assert_eq!(track.artist, "Artist");
    assert!(matches!(action, EnrichAction::FetchLastFmArt { ref artist, ref album, ref api_key }
        if artist == "Artist" && album == "Real Album" && api_key == "KEY"));

    let action = enrich_from_musicbrainz(
        &mut track,
        Some(&config),
        EnrichEvent::ArtFetched { art: Some("https://art/x.png".to_string()) },
    );
    assert!(matches!(action, EnrichAction::Done));
    assert_eq!(track.lastfm_album_art_url, Some("https://art/x.png".to_string()));
}

#[test]
fn barcode_miss_falls_back_to_album_search() {
    let config = lastfm_config(true);
    let mut track = plain_track(Some("Album"), Some("012345678901"), Some(200));
    let action = enrich_from_musicbrainz(
        &mut track,
        Some(&config),
        EnrichEvent::BarcodeSearched { duration_secs: 200, found: None },
    );
    assert!(matches!(action, EnrichAction::SearchAlbum { ref album, duration_secs: 200 } if album == "Album"));
    assert_eq!(track, plain_track(Some("Album"), Some("012345678901"), Some(200)));
}

#[test]
fn album_match_with_catalog_number_keeps_idagio_art() {
    let config = lastfm_config(true);
    let mut track = plain_track(Some("Album"), Some("3149020933848"), Some(200));
    let action = enrich_from_musicbrainz(
        &mut track,
        Some(&config),
        EnrichEvent::AlbumSearched { found: Some(("A".to_string(), "T".to_string())) },
    );
    assert!(matches!(action, EnrichAction::Done));
    assert_eq!(track.album, Some("A".to_string()));
    assert_eq!(track.title, "T");
    assert_eq!(
        track.idagio_album_art_url(),
        Some("https://idagio-images.global.ssl.fastly.net/albums/3149020933848/main.jpg".to_string())
    );
}

#[test]
fn album_match_without_lastfm_stops() {
    let disabled = lastfm_config(false);
    let mut track = plain_track(Some("Album"), None, Some(200));
    let action = enrich_from_musicbrainz(
        &mut track,
        Some(&disabled),
        EnrichEvent::AlbumSearched { found: Some(("A".to_string(), "T".to_string())) },
    );
    assert!(matches!(action, EnrichAction::Done));
    let mut track = plain_track(Some("Album"), None, Some(200));
    let enabled = lastfm_config(true);
    let action = enrich_from_musicbrainz(
        &mut track,
        Some(&enabled),
        EnrichEvent::AlbumSearched { found: Some(("A".to_string(), "T".to_string())) },
    );
    assert!(matches!(action, EnrichAction::FetchLastFmArt { .. }));
}

#[test]
fn search_addresses_are_percent_encoded() {
    assert_eq!(
        barcode_search_url("0123456789012"),
        "https://musicbrainz.org/ws/2/release?query=barcode%3A0123456789012&fmt=json&limit=5&inc=recordings"
    );
    assert_eq!(
        album_search_url("Some \"Album\""),
        "https://musicbrainz.org/ws/2/release?query=release%3A%22Some%20%5C%22Album%5C%22%22&fmt=json&limit=5&inc=recordings"
    );
    assert_eq!(
        lastfm_album_info_url("AC/DC", "Back in Black", "KEY"),
        "https://ws.audioscrobbler.com/2.0/?method=album.getinfo&artist=AC%2FDC&album=Back%20in%20Black&api_key=KEY&format=json"
    );
    assert_eq!(
        lastfm_album_info_url("Bj\u{f6}rk", "a~b-c_d.e", "K"),
        "https://ws.audioscrobbler.com/2.0/?method=album.getinfo&artist=Bj%C3%B6rk&album=a~b-c_d.e&api_key=K&format=json"
    );
}

fn mb_track(title: Option<&str>, length: Option<u64>) -> MBTrack {
    MBTrack { title: title.map(|t| t.to_string()), length }
}

fn search_result() -> MBReleaseSearchResult {
    MBReleaseSearchResult {
        releases: Some(vec![
            MBRelease {
                title: None,
                id: Some("no-title".to_string()),
                media: Some(vec![MBMedia {
                    track_count: Some(1),
                    tracks: Some(vec![mb_track(Some("skipped"), Some(180_000))]),
                }]),
            },
            MBRelease {
                title: Some("Album A".to_string()),
                id: Some("a".to_string()),
                media: Some(vec![
                    MBMedia { track_count: Some(0), tracks: None },
                    MBMedia {
                        track_count: Some(3),
                        tracks: Some(vec![
                            mb_track(Some("too short"), Some(100_000)),
                            mb_track(None, Some(180_000)),
                            mb_track(Some("t2"), Some(183_000)),
                        ]),
                    },
                ]),
            },
        ]),
    }
}

#[test]
fn match_picks_first_titled_track_within_tolerance() {
    let res = search_result();
    assert_eq!(
        match_release_track(&res, 180),
        Some(("Album A".to_string(), "t2".to_string()))
    );
    // 3001 ms off: no match.
    let res = MBReleaseSearchResult {
        releases: Some(vec![MBRelease {
            title: Some("B".to_string()),
            id: None,
            media: Some(vec![MBMedia {
                track_count: None,
                tracks: Some(vec![mb_track(Some("x"), Some(176_999))]),
            }]),
        }]),
    };
    assert_eq!(match_release_track(&res, 180), None);
    assert_eq!(
        match_release_track(&MBReleaseSearchResult { releases: None }, 180),
        None
    );
}

// Lengths are compared as plain numbers: a huge length never matches.
#[test]
fn huge_lengths_do_not_wrap_around() {
    let far = MBReleaseSearchResult {
        releases: Some(vec![MBRelease {
            title: Some("B".to_string()),
            id: None,
            media: Some(vec![MBMedia {
                track_count: None,
                tracks: Some(vec![
                    mb_track(Some("wrapped"), Some(u64::MAX - 1000)),
                    mb_track(Some("half"), Some(1u64 << 63)),
                ]),
            }]),
        }]),
    };
    assert_eq!(match_release_track(&far, 2), None);
    assert_eq!(match_release_track(&far, 0), None);
    let exact = MBReleaseSearchResult {
        releases: Some(vec![MBRelease {
            title: Some("C".to_string()),
            id: None,
            media: Some(vec![MBMedia {
                track_count: None,
                tracks: Some(vec![mb_track(Some("edge"), Some(5000))]),
            }]),
        }]),
    };
    assert_eq!(match_release_track(&exact, 2), Some(("C".to_string(), "edge".to_string())));
    assert_eq!(match_release_track(&exact, 8), Some(("C".to_string(), "edge".to_string())));
    assert_eq!(match_release_track(&exact, 9), None);
}

fn image(size: &str, url: &str) -> LastFmImage {
    LastFmImage { size: Some(size.to_string()), url: Some(url.to_string()) }
}

fn response(images: Vec<LastFmImage>) -> LastFmAlbumResponse {
    LastFmAlbumResponse { album: Some(LastFmAlbum { image: Some(images) }) }
}

#[test]
fn album_art_preference_order() {
    let r = response(vec![image("small", "s"), image("large", ""), image("extralarge", "xl")]);
    assert_eq!(select_album_art(&r), Some("xl".to_string()));
    let r = response(vec![image("extralarge", "xl"), image("large", "L")]);
    assert_eq!(select_album_art(&r), Some("L".to_string()));
    let r = response(vec![image("medium", ""), image("medium", "m")]);
    assert_eq!(select_album_art(&r), Some("m".to_string()));
    assert_eq!(select_album_art(&response(vec![])), None);
    assert_eq!(select_album_art(&LastFmAlbumResponse { album: None }), None);
}

#[test]
fn art_cache_read_after_write() {
    let mut cache = AlbumArtCache::new();
    assert!(matches!(lastfm_art_lookup(&cache, "", "Album", "K"), ArtLookup::Skip));
    match lastfm_art_lookup(&cache, "Artist", "Album", "K") {
        ArtLookup::Fetch(url) => assert_eq!(
            url,
            "https://ws.audioscrobbler.com/2.0/?method=album.getinfo&artist=Artist&album=Album&api_key=K&format=json"
        ),
        other => panic!("unexpected {:?}", other),
    }
    let r = response(vec![image("large", "L")]);
    assert_eq!(lastfm_art_store(&mut cache, "Artist", "Album", Some(&r)), Some("L".to_string()));
    assert!(matches!(lastfm_art_lookup(&cache, "Artist", "Album", "K"), ArtLookup::Cached(Some(ref u)) if u == "L"));
    assert_eq!(cache.get("Artist", "Album"), Some(Some("L".to_string())));
    assert_eq!(cache.get("Artist", "Other"), None);

    // A failed request is cached as "no art".
    assert_eq!(lastfm_art_store(&mut cache, "Artist", "Other", None), None);
    assert!(matches!(lastfm_art_lookup(&cache, "Artist", "Other", "K"), ArtLookup::Cached(None)));

    // A later result replaces the earlier one.
    return_and_cache(&mut cache, ("Artist".to_string(), "Album".to_string()), None);
    assert_eq!(cache.get("Artist", "Album"), Some(None));
    assert_eq!(cache.get("Artist", "Other"), Some(None));
}
