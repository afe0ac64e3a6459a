# osx_scrobbler

A macOS menu bar scrobbler whose decision logic is a Verus-verified library.

- `src/` — the verified library:
  - `text`, `track`: string helpers over `Seq<char>` views and the track record;
  - `text_cleanup`: regular-expression cleanup of metadata and the parsing of
    classical-music (IDAGIO) titles;
  - `media_monitor`: the playback state machine that announces tracks and
    decides when each is scrobbled, with its laws as proof functions;
  - `metadata_enricher`: MusicBrainz/Last.fm request addresses, duration
    matching of search results, album-art choice and cache, and the step
    function of the enrichment flow;
  - `config`, `install`, `ui`: configuration updates, installer texts, menu
    texts and album-art validation;
  - `clock`: clock readings, stated only as far as they can be.
- `tests/` — tests of the library, run against the real outside crates.
- `app/` — the program: media snapshots, HTTP exchanges, the menu bar icon and
  the event loop, driving the library.
