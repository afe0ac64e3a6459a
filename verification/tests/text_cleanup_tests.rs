use osx_scrobbler::config::CleanupConfig;
use osx_scrobbler::text_cleanup::{parse_classical_metadata, TextCleaner};

#[test]
fn test_disabled_cleaner_returns_unchanged() {
    let config = CleanupConfig {
        enabled: false,
        patterns: vec![r"\s*\[Explicit\]".to_string()],
    };
    let cleaner = TextCleaner::new(&config);

    assert_eq!(cleaner.clean("Song [Explicit]"), "Song [Explicit]");
}

#[test]
fn test_removes_explicit_tags() {
    let config = CleanupConfig {
        enabled: true,
        patterns: vec![
            r"\s*\[Explicit\]".to_string(),
            r"\s*\(Explicit\)".to_string(),
        ],
    };
    let cleaner = TextCleaner::new(&config);

    assert_eq!(cleaner.clean("Song [Explicit]"), "Song");
    assert_eq!(cleaner.clean("Song (Explicit)"), "Song");
    assert_eq!(cleaner.clean("Song [Explicit] (Explicit)"), "Song");
}

#[test]
fn test_removes_clean_tags() {
    let config = CleanupConfig {
        enabled: true,
        patterns: vec![r"\s*\[Clean\]".to_string()],
    };
    let cleaner = TextCleaner::new(&config);

    assert_eq!(cleaner.clean("Song [Clean]"), "Song");
}

#[test]
fn test_trims_whitespace() {
    let config = CleanupConfig {
        enabled: true,
        patterns: vec![r"\s*\[Explicit\]".to_string()],
    };
    let cleaner = TextCleaner::new(&config);

    assert_eq!(cleaner.clean("  Song [Explicit]  "), "Song");
}

#[test]
fn test_multiple_patterns() {
    let config = CleanupConfig {
        enabled: true,
        patterns: vec![
            r"\s*\[Explicit\]".to_string(),
            r"\s*- Remastered.*".to_string(),
        ],
    };
    let cleaner = TextCleaner::new(&config);

    assert_eq!(cleaner.clean("Song [Explicit] - Remastered 2020"), "Song");
}

#[test]
fn test_clean_option_with_some() {
    let config = CleanupConfig {
        enabled: true,
        patterns: vec![r"\s*\[Explicit\]".to_string()],
    };
    let cleaner = TextCleaner::new(&config);

    assert_eq!(
        cleaner.clean_option(Some("Song [Explicit]".to_string())),
        Some("Song".to_string())
    );
}

#[test]
fn test_clean_option_with_none() {
    let config = CleanupConfig {
        enabled: true,
        patterns: vec![r"\s*\[Explicit\]".to_string()],
    };
    let cleaner = TextCleaner::new(&config);

    assert_eq!(cleaner.clean_option(None), None);
}

#[test]
fn test_invalid_pattern_is_skipped() {
    let config = CleanupConfig {
        enabled: true,
        patterns: vec![
            r"[invalid(".to_string(), // Invalid regex
            r"\s*\[Explicit\]".to_string(),
        ],
    };
    let cleaner = TextCleaner::new(&config);

    // Should still clean with the valid pattern
    assert_eq!(cleaner.clean("Song [Explicit]"), "Song");
}

#[test]
fn test_parse_idagio_classical_metadata() {
    let (artist, title, upc) = parse_classical_metadata(
        "",
        " - Canon and Gigue in D major P 37 by Johann Pachelbel | Stream on IDAGIO | IDAGIO",
    );
    assert_eq!(artist, "");
    assert_eq!(title, "Canon and Gigue in D major P 37 by Johann Pachelbel");
    assert_eq!(upc, None);
}

#[test]
fn test_parse_classical_metadata_without_by() {
    let (artist, title, upc) =
        parse_classical_metadata("", " - Perpetual Night: 17th Century Airs | Stream on IDAGIO | IDAGIO");
    assert_eq!(artist, "");
    assert_eq!(title, "Perpetual Night: 17th Century Airs");
    assert_eq!(upc, None);
}

#[test]
fn test_parse_idagio_without_composer() {
    // IDAGIO track without composer info - just title and UPC
    let (artist, title, upc) =
        parse_classical_metadata("", " - Perpetual Night: 17th Century Airs and Songs 3149020933848");
    assert_eq!(artist, "");
    // Should strip UPC code and leading dash
    assert_eq!(title, "Perpetual Night: 17th Century Airs and Songs");
    assert_eq!(upc, Some("3149020933848".to_string()));
}

#[test]
fn test_parse_idagio_with_upc_no_pipe() {
    // IDAGIO track with just UPC code (new format)
    let (artist, title, upc) =
        parse_classical_metadata("", " - Cannon: Lord of Light, String Quartet & 5 Chansons de femme 5020926113221");
    assert_eq!(artist, "");
    assert_eq!(title, "Cannon: Lord of Light, String Quartet & 5 Chansons de femme");
    assert_eq!(upc, Some("5020926113221".to_string()));
}

#[test]
fn test_parse_classical_metadata_with_existing_artist() {
    let (artist, title, upc) = parse_classical_metadata("Artist", " - Title by Composer");
    assert_eq!(artist, "Artist");
    assert_eq!(title, " - Title by Composer");
    assert_eq!(upc, None);
}

// A disabled cleaner keeps every text, white space included.
#[test]
fn disabled_cleaner_keeps_surrounding_spaces() {
    let cleaner = TextCleaner::new(&CleanupConfig { enabled: false, patterns: vec![] });
    assert_eq!(cleaner.clean("  Song  "), "  Song  ");
}

// Without patterns an enabled cleaner only trims; Unicode spaces count.
#[test]
fn enabled_cleaner_without_patterns_trims_unicode_space() {
    let cleaner = TextCleaner::new(&CleanupConfig { enabled: true, patterns: vec![] });
    assert_eq!(cleaner.clean("\u{3000}\tSong\u{00A0}\n"), "Song");
    assert_eq!(cleaner.clean("   "), "");
}

// Cleaning output has no white space at either end, so cleaning again with
// no patterns gives the same text.
#[test]
fn cleaned_text_is_already_trimmed() {
    let cleaner = TextCleaner::new(&CleanupConfig {
        enabled: true,
        patterns: vec![r"\[Live\]".to_string()],
    });
    let once = cleaner.clean(" Song [Live] ");
    assert_eq!(once, "Song");
    let trimmer = TextCleaner::new(&CleanupConfig { enabled: true, patterns: vec![] });
    assert_eq!(trimmer.clean(&once), once);
}

// Patterns apply in configuration order: the second sees the first's output.
#[test]
fn patterns_apply_in_order() {
    let cleaner = TextCleaner::new(&CleanupConfig {
        enabled: true,
        patterns: vec!["ab".to_string(), "ac".to_string()],
    });
    assert_eq!(cleaner.clean("aabc"), "");
    let reversed = TextCleaner::new(&CleanupConfig {
        enabled: true,
        patterns: vec!["ac".to_string(), "ab".to_string()],
    });
    assert_eq!(reversed.clean("aabc"), "ac");
}

// Only invalid patterns: the text is only trimmed.
#[test]
fn only_invalid_patterns_leave_text_trimmed() {
    let cleaner = TextCleaner::new(&CleanupConfig {
        enabled: true,
        patterns: vec!["(".to_string(), "[z-a]".to_string()],
    });
    assert_eq!(cleaner.clean(" ( x ) "), "( x )");
}

// Blank (white space only) artists count as missing.
#[test]
fn blank_artist_is_parsed() {
    let (artist, title, upc) = parse_classical_metadata("  \t", "Title 42 | rest");
    assert_eq!(artist, "");
    assert_eq!(title, "Title");
    assert_eq!(upc, Some("42".to_string()));
}

// A title made only of digits becomes empty and the digits the catalog number.
#[test]
fn digits_only_title() {
    let (artist, title, upc) = parse_classical_metadata("", "0123");
    assert_eq!(artist, "");
    assert_eq!(title, "");
    assert_eq!(upc, Some("0123".to_string()));
}

// Unicode numeric characters count as digits of the catalog number (this
// fails if the numeric test answered only for ASCII).
#[test]
fn unicode_digits_are_numeric() {
    let (_, title, upc) = parse_classical_metadata("", "Symphony \u{0663}\u{0664}");
    assert_eq!(title, "Symphony");
    assert_eq!(upc, Some("\u{0663}\u{0664}".to_string()));
}

// The IDAGIO suffix wins over an earlier pipe; a plain pipe cuts otherwise.
#[test]
fn pipe_suffixes() {
    let (_, title, _) = parse_classical_metadata("", "A | B | Stream on IDAGIO");
    assert_eq!(title, "A | B");
    let (_, title, _) = parse_classical_metadata("", "A | B");
    assert_eq!(title, "A");
}

// An empty title stays empty and has no catalog number.
#[test]
fn empty_title() {
    assert_eq!(parse_classical_metadata("", ""), (String::new(), String::new(), None));
}
