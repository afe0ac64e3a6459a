//! Character-level string helpers shared by the metadata code.
//!
//! Strings are reasoned about through their view, a `Seq<char>`.
use vstd::prelude::*;
use vstd::utf8::encode_utf8;

verus! {

/// Unicode `White_Space` property (the set `char::is_whitespace` tests).
pub open spec fn is_white_space(c: char) -> bool {
    let u = c as u32;
    ||| 0x09 <= u <= 0x0D
    ||| u == 0x20
    ||| u == 0x85
    ||| u == 0xA0
    ||| u == 0x1680
    ||| 0x2000 <= u <= 0x200A
    ||| u == 0x2028
    ||| u == 0x2029
    ||| u == 0x202F
    ||| u == 0x205F
    ||| u == 0x3000
}

/// `s` with leading white space removed.
pub open spec fn trim_start_ws(s: Seq<char>) -> Seq<char>
    decreases s.len(),
{
    if s.len() > 0 && is_white_space(s[0]) {
        trim_start_ws(s.drop_first())
    } else {
        s
    }
}

/// `s` with trailing white space removed.
pub open spec fn trim_end_ws(s: Seq<char>) -> Seq<char>
    decreases s.len(),
{
    if s.len() > 0 && is_white_space(s.last()) {
        trim_end_ws(s.drop_last())
    } else {
        s
    }
}

/// `s` with white space removed at both ends.
pub open spec fn trim_ws(s: Seq<char>) -> Seq<char> {
    trim_end_ws(trim_start_ws(s))
}

/// Every character of `s` is white space.
pub open spec fn all_white_space(s: Seq<char>) -> bool {
    forall|i: int| 0 <= i < s.len() ==> is_white_space(#[trigger] s[i])
}

/// `pat` occurs in `s` at position `i`.
pub open spec fn occurs_at(s: Seq<char>, pat: Seq<char>, i: int) -> bool {
    0 <= i && i + pat.len() <= s.len() && s.subrange(i, i + pat.len()) == pat
}

/// The first position at or after `from` where `pat` occurs in `s`.
pub open spec fn find_from(s: Seq<char>, pat: Seq<char>, from: int) -> Option<int>
    decreases s.len() + 1 - from,
{
    if from < 0 || from + pat.len() > s.len() {
        None
    } else if occurs_at(s, pat, from) {
        Some(from)
    } else {
        find_from(s, pat, from + 1)
    }
}

/// The first position where `pat` occurs in `s`.
pub open spec fn find_first(s: Seq<char>, pat: Seq<char>) -> Option<int> {
    find_from(s, pat, 0)
}

/// `pat` is a prefix of `s`.
pub open spec fn starts_with(s: Seq<char>, pat: Seq<char>) -> bool {
    pat.len() <= s.len() && s.subrange(0, pat.len() as int) == pat
}

/// Tests the Unicode `White_Space` property of a character.
pub fn is_whitespace_char(c: char) -> (r: bool)
    ensures
        r == is_white_space(c),
{
    let u = c as u32;
    (0x09 <= u && u <= 0x0D) || u == 0x20 || u == 0x85 || u == 0xA0 || u == 0x1680 || (0x2000
        <= u && u <= 0x200A) || u == 0x2028 || u == 0x2029 || u == 0x202F || u == 0x205F || u
        == 0x3000
}

/// Calls `String::push`, which appends one character to the string.
#[verifier::external_body]
pub(crate) fn string_push(s: &mut String, c: char)
    ensures
        final(s)@ == old(s)@.push(c),
{
    s.push(c);
}

/// The characters of a string slice, in order.
pub fn chars_of(s: &str) -> (v: Vec<char>)
    ensures
        v@ == s@,
{
    let mut v: Vec<char> = Vec::new();
    for c in it: s.chars()
        invariant
            v@ == it.seq().take(it.index() as int),
    {
        v.push(c);
    }
    v
}

/// The string made of `chars[lo..hi]`.
pub fn string_from_range(chars: &Vec<char>, lo: usize, hi: usize) -> (r: String)
    requires
        lo <= hi <= chars.len(),
    ensures
        r@ == chars@.subrange(lo as int, hi as int),
{
    let mut r = String::new();
    let mut i = lo;
    while i < hi
        invariant
            lo <= i <= hi <= chars.len(),
            r@ == chars@.subrange(lo as int, i as int),
        decreases hi - i,
    {
        string_push(&mut r, chars[i]);
        i = i + 1;
    }
    r
}


/// `pat` occurs in `s` at position `i`.
pub fn occurs_at_exec(s: &Vec<char>, pat: &Vec<char>, i: usize) -> (r: bool)
    ensures
        r == occurs_at(s@, pat@, i as int),
{
    if i > s.len() || pat.len() > s.len() - i {
        return false;
    }
    let mut k: usize = 0;
    while k < pat.len()
        invariant
            i + pat.len() <= s.len(),
            k <= pat.len(),
            forall|j: int| 0 <= j < k ==> s@[i + j] == pat@[j],
        decreases pat.len() - k,
    {
        if s[i + k] != pat[k] {
            assert(s@.subrange(i as int, i + pat.len())[k as int] != pat@[k as int]);
            return false;
        }
        k = k + 1;
    }
    assert(s@.subrange(i as int, i + pat.len()) =~= pat@);
    true
}

/// The first position where `pat` occurs in `s`.
pub fn find_exec(s: &Vec<char>, pat: &Vec<char>) -> (r: Option<usize>)
    ensures
        match r {
            Some(i) => find_first(s@, pat@) == Some(i as int) && occurs_at(s@, pat@, i as int),
            None => find_first(s@, pat@) is None,
        },
{
    if pat.len() == 0 {
        assert(s@.subrange(0, 0) =~= pat@);
        return Some(0);
    }
    let mut i: usize = 0;
    while i <= s.len()
        invariant
            pat.len() > 0,
            i <= s.len() + 1,
            find_first(s@, pat@) == find_from(s@, pat@, i as int),
        decreases s.len() + 1 - i,
    {
        if pat.len() > s.len() - i {
            return None;
        }
        if occurs_at_exec(s, pat, i) {
            return Some(i);
        }
        i = i + 1;
    }
    None
}

/// `pat` is a prefix of `s`.
pub fn starts_with_exec(s: &Vec<char>, pat: &Vec<char>) -> (r: bool)
    ensures
        r == starts_with(s@, pat@),
{
    occurs_at_exec(s, pat, 0)
}

/// Index of the first character that is not white space, or `s.len()`.
fn leading_ws_end(s: &Vec<char>) -> (i: usize)
    ensures
        i <= s.len(),
        trim_start_ws(s@) == s@.subrange(i as int, s.len() as int),
{
    let mut i: usize = 0;
    assert(s@.subrange(0, s.len() as int) =~= s@);
    while i < s.len() && is_whitespace_char(s[i])
        invariant
            i <= s.len(),
            trim_start_ws(s@) == trim_start_ws(s@.subrange(i as int, s.len() as int)),
        decreases s.len() - i,
    {
        assert(s@.subrange(i as int, s.len() as int).drop_first() =~= s@.subrange(
            i + 1,
            s.len() as int,
        ));
        i = i + 1;
    }
    i
}

/// End (exclusive) of `s[lo..]` once trailing white space is removed.
fn trailing_ws_start(s: &Vec<char>, lo: usize) -> (j: usize)
    requires
        lo <= s.len(),
    ensures
        lo <= j <= s.len(),
        trim_end_ws(s@.subrange(lo as int, s.len() as int)) == s@.subrange(lo as int, j as int),
{
    let mut j: usize = s.len();
    while j > lo && is_whitespace_char(s[j - 1])
        invariant
            lo <= j <= s.len(),
            trim_end_ws(s@.subrange(lo as int, s.len() as int)) == trim_end_ws(
                s@.subrange(lo as int, j as int),
            ),
        decreases j,
    {
        assert(s@.subrange(lo as int, j as int).drop_last() =~= s@.subrange(
            lo as int,
            j - 1,
        ));
        j = j - 1;
    }
    j
}

/// `s` with white space removed at both ends (as `str::trim`).
pub fn trim_chars(s: &Vec<char>) -> (r: String)
    ensures
        r@ == trim_ws(s@),
{
    let i = leading_ws_end(s);
    let j = trailing_ws_start(s, i);
    string_from_range(s, i, j)
}

/// `s` with trailing white space removed (as `str::trim_end`).
pub fn trim_end_chars(s: &Vec<char>) -> (r: String)
    ensures
        r@ == trim_end_ws(s@),
{
    let j = trailing_ws_start(s, 0);
    assert(s@.subrange(0, s.len() as int) =~= s@);
    string_from_range(s, 0, j)
}

/// `s` with white space removed at both ends (as `str::trim`).
pub fn trim_str(s: &str) -> (r: String)
    ensures
        r@ == trim_ws(s@),
{
    let v = chars_of(s);
    trim_chars(&v)
}

/// Removing white space from both ends leaves nothing exactly when every
/// character is white space.
pub proof fn lemma_trim_empty_iff_all_ws(s: Seq<char>)
    ensures
        (trim_ws(s).len() == 0) <==> all_white_space(s),
    decreases s.len(),
{
    if s.len() > 0 && is_white_space(s[0]) {
        lemma_trim_empty_iff_all_ws(s.drop_first());
        if all_white_space(s.drop_first()) {
            assert forall|i: int| 0 <= i < s.len() implies is_white_space(#[trigger] s[i]) by {
                if i > 0 {
                    assert(s[i] == s.drop_first()[i - 1]);
                }
            }
        }
        if all_white_space(s) {
            assert forall|i: int| 0 <= i < s.drop_first().len() implies is_white_space(
                #[trigger] s.drop_first()[i],
            ) by {
                assert(s.drop_first()[i] == s[i + 1]);
            }
        }
    } else if s.len() > 0 {
        lemma_trim_end_keeps_non_ws_head(s);
    }
}

/// Trimming the end of a string whose first character is not white space
/// keeps at least that character.
proof fn lemma_trim_end_keeps_non_ws_head(s: Seq<char>)
    requires
        s.len() > 0,
        !is_white_space(s[0]),
    ensures
        trim_end_ws(s).len() > 0,
    decreases s.len(),
{
    if is_white_space(s.last()) {
        if s.len() > 1 {
            lemma_trim_end_keeps_non_ws_head(s.drop_last());
        }
    }
}

/// Whether `s` is empty once white space is trimmed (as `s.trim().is_empty()`).
pub fn is_blank(s: &str) -> (r: bool)
    ensures
        r == (trim_ws(s@).len() == 0),
        r == all_white_space(s@),
{
    proof {
        lemma_trim_empty_iff_all_ws(s@);
    }
    let t = trim_str(s);
    t.as_str().is_empty()
}


/// Whether two string slices hold the same characters.
pub fn str_equal(a: &str, b: &str) -> (r: bool)
    ensures
        r == (a@ == b@),
{
    let x = chars_of(a);
    let y = chars_of(b);
    if x.len() != y.len() {
        return false;
    }
    let mut i: usize = 0;
    while i < x.len()
        invariant
            x@ == a@,
            y@ == b@,
            x.len() == y.len(),
            i <= x.len(),
            forall|k: int| 0 <= k < i ==> x@[k] == y@[k],
        decreases x.len() - i,
    {
        if x[i] != y[i] {
            assert(x@[i as int] != y@[i as int]);
            return false;
        }
        i = i + 1;
    }
    assert(x@ =~= y@);
    true
}

/// Number of bytes of the UTF-8 encoding of a character.
pub fn utf8_width(c: char) -> (r: usize)
    ensures
        r == encode_utf8(seq![c]).len(),
{
    proof {
        vstd::utf8::char_is_scalar(c);
        assert(seq![c].drop_first() =~= Seq::<char>::empty());
        assert(encode_utf8(Seq::<char>::empty()) =~= Seq::<u8>::empty());
        assert(encode_utf8(seq![c]) =~= vstd::utf8::encode_scalar(c as u32));
    }
    let u = c as u32;
    if u <= 0x7F {
        1
    } else if u <= 0x7FF {
        2
    } else if u <= 0xFFFF {
        3
    } else {
        4
    }
}

/// Byte length of the UTF-8 encoding of `s` when it is at most `cap`.
pub fn utf8_len_at_most(s: &str, cap: usize) -> (r: Option<usize>)
    ensures
        match r {
            Some(n) => n == encode_utf8(s@).len() && n <= cap,
            None => encode_utf8(s@).len() > cap,
        },
{
    let chars = chars_of(s);
    let mut bytes: usize = 0;
    let mut i: usize = 0;
    assert(chars@.subrange(0, chars@.len() as int) =~= chars@);
    while i < chars.len()
        invariant
            chars@ == s@,
            i <= chars.len(),
            bytes <= cap,
            encode_utf8(s@).len() == bytes + encode_utf8(chars@.subrange(i as int, chars@.len() as int)).len(),
        decreases chars.len() - i,
    {
        let ghost rest = chars@.subrange(i as int, chars@.len() as int);
        assert(rest[0] == chars@[i as int]);
        assert(rest.drop_first() =~= chars@.subrange(i + 1, chars@.len() as int));
        let w = utf8_width(chars[i]);
        assert(encode_utf8(seq![chars@[i as int]]) =~= vstd::utf8::encode_scalar(chars@[i as int] as u32) + encode_utf8(seq![chars@[i as int]].drop_first()));
        assert(seq![chars@[i as int]].drop_first() =~= Seq::<char>::empty());
        if w > cap - bytes {
            return None;
        }
        bytes = bytes + w;
        i = i + 1;
    }
    assert(chars@.subrange(chars@.len() as int, chars@.len() as int) =~= Seq::<char>::empty());
    Some(bytes)
}


/// Trimming the start leaves nothing or a first character that is not white
/// space, and keeps a suffix of the input.
pub proof fn lemma_trim_start_shape(s: Seq<char>)
    ensures
        trim_start_ws(s).len() <= s.len(),
        trim_start_ws(s) == s.subrange(s.len() - trim_start_ws(s).len(), s.len() as int),
        trim_start_ws(s).len() > 0 ==> !is_white_space(trim_start_ws(s)[0]),
    decreases s.len(),
{
    if s.len() > 0 && is_white_space(s[0]) {
        lemma_trim_start_shape(s.drop_first());
        assert(s.drop_first().subrange(
            s.drop_first().len() - trim_start_ws(s.drop_first()).len(),
            s.drop_first().len() as int,
        ) =~= s.subrange(s.len() - trim_start_ws(s).len(), s.len() as int));
    } else {
        assert(s.subrange(0, s.len() as int) =~= s);
    }
}

/// Trimming the end leaves nothing or a last character that is not white
/// space, and keeps a prefix of the input.
pub proof fn lemma_trim_end_shape(s: Seq<char>)
    ensures
        trim_end_ws(s).len() <= s.len(),
        trim_end_ws(s) == s.subrange(0, trim_end_ws(s).len() as int),
        trim_end_ws(s).len() > 0 ==> !is_white_space(trim_end_ws(s).last()),
    decreases s.len(),
{
    if s.len() > 0 && is_white_space(s.last()) {
        lemma_trim_end_shape(s.drop_last());
        assert(s.drop_last().subrange(0, trim_end_ws(s.drop_last()).len() as int) =~= s.subrange(
            0,
            trim_end_ws(s).len() as int,
        ));
    } else {
        assert(s.subrange(0, s.len() as int) =~= s);
    }
}

/// Trimming both ends leaves a text with no white space at either end.
pub proof fn lemma_trim_ws_shape(s: Seq<char>)
    ensures
        trim_ws(s).len() > 0 ==> !is_white_space(trim_ws(s)[0]) && !is_white_space(
            trim_ws(s).last(),
        ),
{
    let a = trim_start_ws(s);
    lemma_trim_start_shape(s);
    lemma_trim_end_shape(a);
    if trim_ws(s).len() > 0 {
        assert(trim_ws(s)[0] == a[0]);
    }
}

/// A text with no white space at either end is its own trim.
pub proof fn lemma_trim_ws_fixed(s: Seq<char>)
    requires
        s.len() > 0 ==> !is_white_space(s[0]) && !is_white_space(s.last()),
    ensures
        trim_ws(s) == s,
{
    assert(trim_start_ws(s) == s);
}

/// Trimming is idempotent.
pub proof fn lemma_trim_ws_idempotent(s: Seq<char>)
    ensures
        trim_ws(trim_ws(s)) == trim_ws(s),
{
    lemma_trim_ws_shape(s);
    lemma_trim_ws_fixed(trim_ws(s));
}

/// `pat` occurs somewhere in `s`.
pub open spec fn contains_seq(s: Seq<char>, pat: Seq<char>) -> bool {
    exists|i: int| occurs_at(s, pat, i)
}

/// The search from `from` finds the first occurrence at or after `from`, and
/// finds nothing only when there is none.
pub proof fn lemma_find_from_first(s: Seq<char>, pat: Seq<char>, from: int)
    requires
        from >= 0,
    ensures
        match find_from(s, pat, from) {
            Some(p) => from <= p && occurs_at(s, pat, p) && forall|q: int|
                from <= q < p ==> !occurs_at(s, pat, q),
            None => forall|q: int| from <= q ==> !occurs_at(s, pat, q),
        },
    decreases s.len() + 1 - from,
{
    if from + pat.len() > s.len() {
    } else if occurs_at(s, pat, from) {
    } else {
        lemma_find_from_first(s, pat, from + 1);
    }
}

/// An occurrence inside a slice is an occurrence in the whole at the
/// shifted position.
pub proof fn lemma_occurs_in_slice(s: Seq<char>, lo: int, hi: int, pat: Seq<char>, q: int)
    requires
        0 <= lo <= hi <= s.len(),
        occurs_at(s.subrange(lo, hi), pat, q),
    ensures
        occurs_at(s, pat, lo + q),
        lo + q + pat.len() <= hi,
{
    assert(s.subrange(lo, hi).subrange(q, q + pat.len()) =~= s.subrange(lo + q, lo + q + pat.len()));
}

} // verus!
