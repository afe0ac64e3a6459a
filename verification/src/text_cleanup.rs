//! Cleanup of track, album and artist names: removal of configured regular
//! expression matches, and the parsing of classical-music titles whose
//! artist field is blank.
use vstd::prelude::*;

use crate::config::{strings_view, CleanupConfig};
use crate::text::{
    all_white_space, chars_of, contains_seq, find_exec, find_first, is_blank, is_white_space,
    lemma_find_from_first, lemma_occurs_in_slice, lemma_trim_end_shape, lemma_trim_ws_idempotent,
    lemma_trim_ws_shape, occurs_at, starts_with, starts_with_exec, string_from_range,
    trim_end_chars, trim_end_ws, trim_str, trim_ws,
};
use crate::track::opt_chars;

verus! {

/// Name for the result of `char::is_numeric`: whether a character belongs to
/// one of the Unicode general categories for numbers (Nd, Nl, No).
pub uninterp spec fn char_is_numeric(c: char) -> bool;

/// Calls `char::is_numeric`. Its contract claims the result is the
/// function's (named) answer, that ASCII digits are numeric and that no
/// other ASCII character is; for other characters nothing is stated.
#[verifier::external_body]
pub(crate) fn is_numeric_char(c: char) -> (r: bool)
    ensures
        r == char_is_numeric(c),
        ('0' <= c && c <= '9') ==> r,
        ((c as u32) < 128 && !('0' <= c && c <= '9')) ==> !r,
{
    c.is_numeric()
}

/// `s` without its trailing numeric characters (as
/// `str::trim_end_matches(char::is_numeric)`).
pub open spec fn trim_end_numeric(s: Seq<char>) -> Seq<char>
    decreases s.len(),
{
    if s.len() > 0 && char_is_numeric(s.last()) {
        trim_end_numeric(s.drop_last())
    } else {
        s
    }
}

/// The brand suffix that IDAGIO appends to titles.
pub open spec fn idagio_suffix() -> Seq<char> {
    " | Stream on IDAGIO"@
}

/// `title` cut before the IDAGIO suffix, or else before the first `" |"`.
pub open spec fn cut_at_pipe(title: Seq<char>) -> Seq<char> {
    match find_first(title, idagio_suffix()) {
        Some(p) => title.subrange(0, p),
        None => match find_first(title, " |"@) {
            Some(p) => title.subrange(0, p),
            None => title,
        },
    }
}

/// Cleaned title and catalog number of a title whose artist is blank:
/// cut the pipe suffix, split off trailing digits as the catalog number,
/// trim trailing white space and drop a leading `" - "`.
pub open spec fn classical_title_and_upc(title: Seq<char>) -> (Seq<char>, Option<Seq<char>>) {
    let t = cut_at_pipe(title);
    let stripped = trim_end_numeric(t);
    let upc = if stripped.len() < t.len() {
        Some(t.subrange(stripped.len() as int, t.len() as int))
    } else {
        None
    };
    let t2 = trim_end_ws(stripped);
    let t3 = if starts_with(t2, " - "@) {
        t2.subrange(3, t2.len() as int)
    } else {
        t2
    };
    (t3, upc)
}

/// Result of [`parse_classical_metadata`]: `(artist, title, upc)`.
pub open spec fn classical_metadata(artist: Seq<char>, title: Seq<char>) -> (
    Seq<char>,
    Seq<char>,
    Option<Seq<char>>,
) {
    if all_white_space(artist) {
        (Seq::empty(), classical_title_and_upc(title).0, classical_title_and_upc(title).1)
    } else {
        (artist, title, None)
    }
}

/// The characters of a string literal.
fn literal_chars(s: &str) -> (v: Vec<char>)
    ensures
        v@ == s@,
{
    chars_of(s)
}

/// End (exclusive) of `s` once trailing numeric characters are removed.
fn trailing_numeric_start(s: &Vec<char>, hi: usize) -> (j: usize)
    requires
        hi <= s.len(),
    ensures
        j <= hi,
        trim_end_numeric(s@.subrange(0, hi as int)) == s@.subrange(0, j as int),
{
    let mut j: usize = hi;
    while j > 0 && is_numeric_char(s[j - 1])
        invariant
            j <= hi <= s.len(),
            trim_end_numeric(s@.subrange(0, hi as int)) == trim_end_numeric(
                s@.subrange(0, j as int),
            ),
        decreases j,
    {
        assert(s@.subrange(0, j as int).drop_last() =~= s@.subrange(0, j - 1));
        j = j - 1;
    }
    j
}

/// Parse classical music metadata from sources like IDAGIO.
///
/// When the artist is blank, the title is cleaned up and a trailing run of
/// digits is returned as the catalog number; otherwise artist and title are
/// returned unchanged. Returns `(artist, title, upc)`.
pub fn parse_classical_metadata(artist: &str, title: &str) -> (r: (String, String, Option<String>))
    ensures
        (r.0@, r.1@, opt_chars(r.2)) == classical_metadata(artist@, title@),
{
    if is_blank(artist) {
        let chars = chars_of(title);
        let suffix = literal_chars(" | Stream on IDAGIO");
        let pipe = literal_chars(" |");
        let dash = literal_chars(" - ");
        proof {
            reveal_strlit(" - ");
        }
        assert(dash@.len() == 3);
        // Cut the pipe suffix.
        let cut: usize = match find_exec(&chars, &suffix) {
            Some(p) => p,
            None => match find_exec(&chars, &pipe) {
                Some(p) => p,
                None => chars.len(),
            },
        };
        let ghost t = cut_at_pipe(title@);
        assert(t =~= chars@.subrange(0, cut as int)) by {
            if let Some(p) = find_first(chars@, suffix@) {
            } else if let Some(p) = find_first(chars@, pipe@) {
            } else {
                assert(chars@.subrange(0, chars.len() as int) =~= chars@);
            }
        }
        assert(cut <= chars.len()) by {
            if let Some(p) = find_first(chars@, suffix@) {
                assert(occurs_at(chars@, suffix@, p));
            } else if let Some(p) = find_first(chars@, pipe@) {
                assert(occurs_at(chars@, pipe@, p));
            }
        }
        // Split off trailing digits as the catalog number.
        let kept = trailing_numeric_start(&chars, cut);
        let upc = if kept < cut {
            Some(string_from_range(&chars, kept, cut))
        } else {
            None
        };
        assert(chars@.subrange(0, kept as int).len() == kept);
        assert(upc matches Some(u) ==> u@ =~= t.subrange(kept as int, t.len() as int));
        let stripped = vec_prefix(&chars, kept);
        let trimmed = trim_end_chars(&stripped);
        let tchars = chars_of(trimmed.as_str());
        let out = if starts_with_exec(&tchars, &dash) {
            assert(occurs_at(tchars@, dash@, 0));
            string_from_range(&tchars, 3, tchars.len())
        } else {
            trimmed
        };
        (String::new(), out, upc)
    } else {
        (String::from_str(artist), String::from_str(title), None)
    }
}

/// The first `n` characters of `v`.
fn vec_prefix(v: &Vec<char>, n: usize) -> (r: Vec<char>)
    requires
        n <= v.len(),
    ensures
        r@ == v@.subrange(0, n as int),
{
    let mut r: Vec<char> = Vec::new();
    let mut i: usize = 0;
    while i < n
        invariant
            i <= n <= v.len(),
            r@ == v@.subrange(0, i as int),
        decreases n - i,
    {
        r.push(v[i]);
        i = i + 1;
        assert(r@ =~= v@.subrange(0, i as int));
    }
    r
}


/// Name for whether `regex::Regex::new` accepts a pattern.
pub uninterp spec fn regex_compiles(pattern: Seq<char>) -> bool;

/// Name for the text that `Regex::replace_all(text, "")` returns for the
/// regular expression compiled from `pattern`: `text` with every
/// non-overlapping match removed.
pub uninterp spec fn regex_remove_all(pattern: Seq<char>, text: Seq<char>) -> Seq<char>;

/// Calls `regex::Regex::new` and reports whether it succeeded. The contract
/// claims only that the answer is the (named) verdict for the pattern's
/// characters; which patterns compile is not stated.
#[verifier::external_body]
fn regex_is_valid(pattern: &str) -> (r: bool)
    ensures
        r == regex_compiles(pattern@),
{
    regex::Regex::new(pattern).is_ok()
}

/// Compiles `pattern` with `regex::Regex::new` and calls `replace_all` with
/// an empty replacement. The contract claims that the result is the (named)
/// removal of the pattern's matches from `text`; what a match is is not
/// stated.
#[verifier::external_body]
fn regex_replace_all_empty(pattern: &str, text: &str) -> (r: String)
    requires
        regex_compiles(pattern@),
    ensures
        r@ == regex_remove_all(pattern@, text@),
{
    match regex::Regex::new(pattern) {
        Ok(re) => re.replace_all(text, "").into_owned(),
        Err(_) => text.to_string(),
    }
}

/// The patterns of `ps` that compile, in order.
pub open spec fn valid_patterns(ps: Seq<Seq<char>>) -> Seq<Seq<char>>
    decreases ps.len(),
{
    if ps.len() == 0 {
        Seq::empty()
    } else if regex_compiles(ps.last()) {
        valid_patterns(ps.drop_last()).push(ps.last())
    } else {
        valid_patterns(ps.drop_last())
    }
}

/// `text` after removing the matches of each pattern in turn.
pub open spec fn apply_patterns(ps: Seq<Seq<char>>, text: Seq<char>) -> Seq<char>
    decreases ps.len(),
{
    if ps.len() == 0 {
        text
    } else {
        regex_remove_all(ps.last(), apply_patterns(ps.drop_last(), text))
    }
}

/// What [`TextCleaner::clean`] returns.
pub open spec fn cleaned(enabled: bool, ps: Seq<Seq<char>>, text: Seq<char>) -> Seq<char> {
    if !enabled {
        text
    } else {
        trim_ws(apply_patterns(ps, text))
    }
}

/// Removes configured regular-expression matches from metadata.
pub struct TextCleaner {
    enabled: bool,
    patterns: Vec<String>,
}

/// The settings a [`TextCleaner`] applies.
pub struct TextCleanerView {
    pub enabled: bool,
    /// The compiled patterns, in configuration order.
    pub patterns: Seq<Seq<char>>,
}

impl View for TextCleaner {
    type V = TextCleanerView;

    closed spec fn view(&self) -> TextCleanerView {
        TextCleanerView { enabled: self.enabled, patterns: strings_view(self.patterns@) }
    }
}

impl TextCleaner {
    /// Well-formedness: every kept pattern compiles.
    #[verifier::type_invariant]
    closed spec fn wf(&self) -> bool {
        forall|i: int| 0 <= i < self.patterns@.len() ==> regex_compiles(#[trigger] self.patterns@[i]@)
    }

    /// Create a new text cleaner from config. Patterns that do not compile
    /// are skipped; a disabled config keeps no pattern.
    pub fn new(config: &CleanupConfig) -> (r: Self)
        ensures
            r@.enabled == config.enabled,
            r@.patterns == if config.enabled {
                valid_patterns(strings_view(config.patterns@))
            } else {
                Seq::empty()
            },
    {
        let mut patterns: Vec<String> = Vec::new();
        if config.enabled {
            let mut i: usize = 0;
            while i < config.patterns.len()
                invariant
                    i <= config.patterns.len(),
                    strings_view(patterns@) == valid_patterns(
                        strings_view(config.patterns@).take(i as int),
                    ),
                    forall|k: int| 0 <= k < patterns@.len() ==> regex_compiles(#[trigger] patterns@[k]@),
                decreases config.patterns.len() - i,
            {
                let ghost before = patterns@;
                assert(strings_view(config.patterns@).take(i + 1).drop_last() =~= strings_view(
                    config.patterns@,
                ).take(i as int));
                if regex_is_valid(config.patterns[i].as_str()) {
                    patterns.push(config.patterns[i].clone());
                    assert(strings_view(patterns@) =~= strings_view(before).push(
                        config.patterns@[i as int]@,
                    ));
                }
                i = i + 1;
            }
            assert(strings_view(config.patterns@).take(config.patterns.len() as int)
                =~= strings_view(config.patterns@));
        } else {
            assert(strings_view(patterns@) =~= Seq::empty());
        }
        TextCleaner { enabled: config.enabled, patterns }
    }

    /// Clean a text string by applying all patterns, then trimming white
    /// space at both ends. A disabled cleaner returns the text unchanged.
    pub fn clean(&self, text: &str) -> (r: String)
        ensures
            r@ == cleaned(self@.enabled, self@.patterns, text@),
    {
        proof {
            use_type_invariant(self);
        }
        if !self.enabled {
            return String::from_str(text);
        }
        let mut result = String::from_str(text);
        let mut i: usize = 0;
        while i < self.patterns.len()
            invariant
                forall|k: int| 0 <= k < self.patterns@.len() ==> regex_compiles(#[trigger] self.patterns@[k]@),
                i <= self.patterns.len(),
                result@ == apply_patterns(strings_view(self.patterns@).take(i as int), text@),
            decreases self.patterns.len() - i,
        {
            assert(strings_view(self.patterns@).take(i + 1).drop_last() =~= strings_view(
                self.patterns@,
            ).take(i as int));
            assert(regex_compiles(self.patterns@[i as int]@));
            result = regex_replace_all_empty(self.patterns[i].as_str(), result.as_str());
            i = i + 1;
        }
        assert(strings_view(self.patterns@).take(self.patterns.len() as int) =~= strings_view(
            self.patterns@,
        ));
        trim_str(result.as_str())
    }

    /// Clean an optional string.
    pub fn clean_option(&self, text: Option<String>) -> (r: Option<String>)
        ensures
            match text {
                Some(t) => r is Some && r->0@ == cleaned(self@.enabled, self@.patterns, t@),
                None => r is None,
            },
    {
        match text {
            Some(s) => Some(self.clean(s.as_str())),
            None => None,
        }
    }
}

/// A disabled cleaner returns every text unchanged.
pub proof fn lemma_disabled_cleaner_keeps_text(ps: Seq<Seq<char>>, text: Seq<char>)
    ensures
        cleaned(false, ps, text) == text,
{
}

/// An enabled cleaner returns text with no white space at either end, so
/// trimming it again changes nothing; without patterns it only trims.
pub proof fn lemma_cleaned_text_is_trimmed(ps: Seq<Seq<char>>, text: Seq<char>)
    ensures
        cleaned(true, ps, text).len() > 0 ==> !is_white_space(cleaned(true, ps, text)[0])
            && !is_white_space(cleaned(true, ps, text).last()),
        trim_ws(cleaned(true, ps, text)) == cleaned(true, ps, text),
        cleaned(true, Seq::empty(), text) == trim_ws(text),
{
    lemma_trim_ws_shape(apply_patterns(ps, text));
    lemma_trim_ws_idempotent(apply_patterns(ps, text));
}

/// A cleaner keeps exactly the configured patterns that compile, in their
/// order: no kept pattern fails to compile, no compiling pattern is lost,
/// and a configuration whose patterns all compile is kept whole.
pub proof fn lemma_valid_patterns_exact(ps: Seq<Seq<char>>)
    ensures
        forall|i: int| 0 <= i < valid_patterns(ps).len() ==> regex_compiles(#[trigger] valid_patterns(ps)[i]),
        forall|p: Seq<char>| #[trigger] valid_patterns(ps).contains(p) <==> (ps.contains(p) && regex_compiles(p)),
        valid_patterns(ps).len() <= ps.len(),
        (forall|i: int| 0 <= i < ps.len() ==> regex_compiles(#[trigger] ps[i])) ==> valid_patterns(ps) == ps,
    decreases ps.len(),
{
    if ps.len() > 0 {
        let init = ps.drop_last();
        lemma_valid_patterns_exact(init);
        assert(ps =~= init.push(ps.last()));
        let vi = valid_patterns(init);
        assert forall|p: Seq<char>| #[trigger] valid_patterns(ps).contains(p) <==> (ps.contains(p)
            && regex_compiles(p)) by {
            if ps.contains(p) && regex_compiles(p) {
                let k = choose|k: int| 0 <= k < ps.len() && ps[k] == p;
                if k < ps.len() - 1 {
                    assert(init[k] == p);
                    assert(init.contains(p));
                    assert(vi.contains(p));
                    let m = choose|m: int| 0 <= m < vi.len() && vi[m] == p;
                    if regex_compiles(ps.last()) {
                        assert(valid_patterns(ps)[m] == p);
                    } else {
                        assert(valid_patterns(ps)[m] == p);
                    }
                } else {
                    assert(valid_patterns(ps) == vi.push(p));
                    assert(valid_patterns(ps)[vi.len() as int] == p);
                }
            }
            if valid_patterns(ps).contains(p) {
                let k = choose|k: int| 0 <= k < valid_patterns(ps).len() && valid_patterns(ps)[k] == p;
                if regex_compiles(ps.last()) && k == vi.len() {
                    assert(ps[ps.len() - 1] == p);
                } else {
                    assert(vi[k] == p);
                    assert(vi.contains(p));
                    let j = choose|j: int| 0 <= j < init.len() && init[j] == p;
                    assert(ps[j] == p);
                }
            }
        }
        if forall|i: int| 0 <= i < ps.len() ==> regex_compiles(#[trigger] ps[i]) {
            assert forall|i: int| 0 <= i < init.len() implies regex_compiles(#[trigger] init[i]) by {
                assert(init[i] == ps[i]);
            }
            assert(regex_compiles(ps[ps.len() - 1]));
        }
    }
}

/// Removing trailing numeric characters keeps a prefix.
proof fn lemma_trim_end_numeric_prefix(s: Seq<char>)
    ensures
        trim_end_numeric(s).len() <= s.len(),
        trim_end_numeric(s) == s.subrange(0, trim_end_numeric(s).len() as int),
    decreases s.len(),
{
    if s.len() > 0 && char_is_numeric(s.last()) {
        lemma_trim_end_numeric_prefix(s.drop_last());
        assert(s.drop_last().subrange(0, trim_end_numeric(s).len() as int) =~= s.subrange(
            0,
            trim_end_numeric(s).len() as int,
        ));
    } else {
        assert(s.subrange(0, s.len() as int) =~= s);
    }
}

/// Metadata with a non-blank artist passes through unchanged. With a blank
/// artist the artist becomes empty, the title loses the pipe suffix (it
/// never holds `" | Stream on IDAGIO"`) and its trailing white space, and a
/// catalog number, when one is split off, is a non-empty run of numeric
/// characters that ended the cut title.
pub proof fn lemma_classical_metadata_shape(artist: Seq<char>, title: Seq<char>)
    ensures
        !all_white_space(artist) ==> classical_metadata(artist, title) == (artist, title, None::<Seq<char>>),
        all_white_space(artist) ==> {
            let r = classical_metadata(artist, title);
            &&& r.0.len() == 0
            &&& r.1.len() > 0 ==> !is_white_space(r.1.last())
            &&& !contains_seq(r.1, idagio_suffix())
            &&& (r.2 matches Some(u) ==> {
                &&& u.len() > 0
                &&& forall|i: int| 0 <= i < u.len() ==> char_is_numeric(#[trigger] u[i])
                &&& trim_end_numeric(cut_at_pipe(title)) + u == cut_at_pipe(title)
            })
        },
{
    if all_white_space(artist) {
        let t = cut_at_pipe(title);
        let stripped = trim_end_numeric(t);
        let t2 = trim_end_ws(stripped);
        let t3 = classical_title_and_upc(title).0;
        // The cut title is a prefix of the title, ending before the first
        // occurrence of the suffix.
        lemma_find_from_first(title, idagio_suffix(), 0);
        lemma_find_from_first(title, " |"@, 0);
        let c: int = t.len() as int;
        assert(t =~= title.subrange(0, c)) by {
            if let Some(p) = find_first(title, idagio_suffix()) {
            } else if let Some(p) = find_first(title, " |"@) {
            } else {
                assert(title.subrange(0, title.len() as int) =~= title);
            }
        }
        assert(forall|x: int| occurs_at(title, idagio_suffix(), x) ==> x + idagio_suffix().len() > c)
            by {
            reveal_strlit(" | Stream on IDAGIO");
        }
        lemma_trim_end_numeric_prefix(t);
        lemma_trim_end_shape(stripped);
        // The result title is a slice of the cut title.
        let o: int = if starts_with(t2, " - "@) {
            3
        } else {
            0
        };
        assert(t3 =~= title.subrange(o, o + t3.len())) by {
            reveal_strlit(" - ");
        }
        assert(o + t3.len() <= c) by {
            reveal_strlit(" - ");
        }
        if contains_seq(t3, idagio_suffix()) {
            let q = choose|q: int| occurs_at(t3, idagio_suffix(), q);
            lemma_occurs_in_slice(title, o, o + t3.len(), idagio_suffix(), q);
            assert(false);
        }
        if t3.len() > 0 {
            assert(t3.last() == t2.last()) by {
                reveal_strlit(" - ");
            }
            assert(t2.len() > 0) by {
                reveal_strlit(" - ");
            }
            assert(!is_white_space(t2.last()));
            assert(!is_white_space(t3.last()));
        }
        let upc = classical_title_and_upc(title).1;
        if let Some(u) = upc {
            assert(u =~= t.subrange(stripped.len() as int, t.len() as int));
            assert(stripped + u =~= t);
            lemma_trailing_numeric_run(t);
            assert forall|i: int| 0 <= i < u.len() implies char_is_numeric(#[trigger] u[i]) by {
                assert(u[i] == t[stripped.len() + i]);
            }
        }
    }
}

/// The characters that trailing-numeric trimming removes are numeric.
proof fn lemma_trailing_numeric_run(s: Seq<char>)
    ensures
        trim_end_numeric(s).len() <= s.len(),
        forall|i: int| trim_end_numeric(s).len() <= i < s.len() ==> char_is_numeric(#[trigger] s[i]),
    decreases s.len(),
{
    if s.len() > 0 && char_is_numeric(s.last()) {
        lemma_trailing_numeric_run(s.drop_last());
        assert forall|i: int| trim_end_numeric(s).len() <= i < s.len() implies char_is_numeric(
            #[trigger] s[i],
        ) by {
            if i < s.len() - 1 {
                assert(s[i] == s.drop_last()[i]);
            }
        }
    }
}

} // verus!
