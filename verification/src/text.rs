//! Character-level helpers shared by the parsers: Unicode white space,
//! trimming, and comparing texts.

use vstd::prelude::*;
use vstd::string::StrSliceExecFns;

verus! {

/// Whether `c` has the Unicode `White_Space` property (the characters that
/// Rust's `char::is_whitespace` accepts).
pub open spec fn white_space(c: char) -> bool {
    let u = c as u32;
    ||| 0x09 <= u <= 0x0d
    ||| u == 0x20
    ||| u == 0x85
    ||| u == 0xa0
    ||| u == 0x1680
    ||| 0x2000 <= u <= 0x200a
    ||| u == 0x2028
    ||| u == 0x2029
    ||| u == 0x202f
    ||| u == 0x205f
    ||| u == 0x3000
}

/// The first index at or after `i` whose character is not white space,
/// or the length of `s` when there is none.
pub open spec fn space_end(s: Seq<char>, i: int) -> int
    decreases s.len() - i,
{
    if 0 <= i < s.len() && white_space(s[i]) {
        space_end(s, i + 1)
    } else {
        i
    }
}

/// The first index at or after `i` whose character is white space,
/// or the length of `s` when there is none.
pub open spec fn word_end(s: Seq<char>, i: int) -> int
    decreases s.len() - i,
{
    if 0 <= i < s.len() && !white_space(s[i]) {
        word_end(s, i + 1)
    } else {
        i
    }
}

/// `s` without its leading white space.
pub open spec fn spec_trim_start(s: Seq<char>) -> Seq<char> {
    s.skip(space_end(s, 0))
}

/// Whether `c` is white space in the Unicode sense.
pub fn is_whitespace(c: char) -> (b: bool)
    ensures
        b == white_space(c),
{
    let u = c as u32;
    (0x09 <= u && u <= 0x0d) || u == 0x20 || u == 0x85 || u == 0xa0 || u == 0x1680 || (0x2000
        <= u && u <= 0x200a) || u == 0x2028 || u == 0x2029 || u == 0x202f || u == 0x205f || u
        == 0x3000
}

/// The index of the first character of `s` at or after `from` that is
/// (when `space` holds) or is not (otherwise) white space; the length of `s`
/// when there is none.
fn scan(s: &str, from: usize, space: bool) -> (end: usize)
    requires
        from <= s@.len(),
    ensures
        space ==> end == space_end(s@, from as int),
        !space ==> end == word_end(s@, from as int),
        from <= end <= s@.len(),
{
    let n = s.unicode_len();
    let mut i = from;
    while i < n
        invariant
            n == s@.len(),
            from <= i <= n,
            space ==> space_end(s@, i as int) == space_end(s@, from as int),
            !space ==> word_end(s@, i as int) == word_end(s@, from as int),
        decreases n - i,
    {
        if is_whitespace(s.get_char(i)) != space {
            return i;
        }
        i = i + 1;
    }
    i
}

/// `s` without its leading white space.
pub fn trim_start(s: &str) -> (t: &str)
    ensures
        t@ == spec_trim_start(s@),
{
    let start = scan(s, 0, true);
    let n = s.unicode_len();
    let t = s.substring_char(start, n);
    assert(t@ =~= spec_trim_start(s@));
    t
}

/// Splits `s` at the first white space character: the word before it and
/// the rest from it on.
pub fn split_word(s: &str) -> (parts: (&str, &str))
    ensures
        parts.0@ == s@.take(word_end(s@, 0)),
        parts.1@ == s@.skip(word_end(s@, 0)),
{
    let end = scan(s, 0, false);
    let n = s.unicode_len();
    let word = s.substring_char(0, end);
    let rest = s.substring_char(end, n);
    assert(word@ =~= s@.take(word_end(s@, 0)));
    assert(rest@ =~= s@.skip(word_end(s@, 0)));
    (word, rest)
}

/// Whether `s` and `w` hold the same characters.
pub fn same_text(s: &str, w: &str) -> (b: bool)
    ensures
        b == (s@ == w@),
{
    let n = s.unicode_len();
    let m = w.unicode_len();
    if n != m {
        return false;
    }
    let mut i: usize = 0;
    while i < n
        invariant
            n == s@.len(),
            m == w@.len(),
            n == m,
            i <= n,
            forall|j: int| 0 <= j < i ==> s@[j] == w@[j],
        decreases n - i,
    {
        if s.get_char(i) != w.get_char(i) {
            return false;
        }
        i = i + 1;
    }
    assert(s@ =~= w@);
    true
}

/// Every character of `s` is white space.
pub open spec fn all_space(s: Seq<char>) -> bool {
    forall|i: int| 0 <= i < s.len() ==> white_space(s[i])
}

/// No character of `s` is white space.
pub open spec fn no_space(s: Seq<char>) -> bool {
    forall|i: int| 0 <= i < s.len() ==> !white_space(s[i])
}

/// `s` is empty or starts with white space: a word that precedes it ends there.
pub open spec fn starts_with_space(s: Seq<char>) -> bool {
    s.len() == 0 || white_space(s[0])
}

/// `s` is empty or starts with a character that is not white space.
pub open spec fn starts_without_space(s: Seq<char>) -> bool {
    s.len() == 0 || !white_space(s[0])
}

/// Skipping white space from `i` passes over a stretch of white space up to `k`.
proof fn lemma_space_end_over(s: Seq<char>, i: int, k: int)
    requires
        0 <= i <= k <= s.len(),
        forall|j: int| i <= j < k ==> white_space(s[j]),
    ensures
        space_end(s, i) == space_end(s, k),
    decreases k - i,
{
    if i < k {
        lemma_space_end_over(s, i + 1, k);
    }
}

/// Scanning a word from `i` passes over characters that are not white space up to `k`.
proof fn lemma_word_end_over(s: Seq<char>, i: int, k: int)
    requires
        0 <= i <= k <= s.len(),
        forall|j: int| i <= j < k ==> !white_space(s[j]),
    ensures
        word_end(s, i) == word_end(s, k),
    decreases k - i,
{
    if i < k {
        lemma_word_end_over(s, i + 1, k);
    }
}

/// Leading white space followed by text that does not start with white
/// space: trimming leaves exactly that text.
pub proof fn lemma_trim_spaces_before(sep: Seq<char>, rest: Seq<char>)
    requires
        all_space(sep),
        starts_without_space(rest),
    ensures
        spec_trim_start(sep + rest) == rest,
{
    let s = sep + rest;
    lemma_space_end_over(s, 0, sep.len() as int);
    assert(space_end(s, sep.len() as int) == sep.len());
    assert(s.skip(sep.len() as int) =~= rest);
}

/// Text made of white space only trims to nothing.
pub proof fn lemma_trim_all_space(s: Seq<char>)
    requires
        all_space(s),
    ensures
        spec_trim_start(s).len() == 0,
{
    lemma_space_end_over(s, 0, s.len() as int);
}

/// A word followed by text that is empty or starts with white space ends
/// where that text begins.
pub proof fn lemma_word_then(word: Seq<char>, rest: Seq<char>)
    requires
        no_space(word),
        starts_with_space(rest),
    ensures
        word_end(word + rest, 0) == word.len(),
        (word + rest).take(word.len() as int) == word,
        (word + rest).skip(word.len() as int) == rest,
{
    let s = word + rest;
    lemma_word_end_over(s, 0, word.len() as int);
    assert(s.take(word.len() as int) =~= word);
    assert(s.skip(word.len() as int) =~= rest);
}

/// Trimming stops at the first character that is not white space, and
/// all it skips is white space.
pub proof fn lemma_trim_shape(s: Seq<char>)
    ensures
        0 <= space_end(s, 0) <= s.len(),
        all_space(s.take(space_end(s, 0))),
        starts_without_space(spec_trim_start(s)),
        s == s.take(space_end(s, 0)) + spec_trim_start(s),
{
    lemma_space_end_range(s, 0);
    assert(s =~= s.take(space_end(s, 0)) + spec_trim_start(s));
}

proof fn lemma_space_end_range(s: Seq<char>, i: int)
    requires
        0 <= i <= s.len(),
    ensures
        i <= space_end(s, i) <= s.len(),
        forall|j: int| i <= j < space_end(s, i) ==> white_space(s[j]),
        space_end(s, i) < s.len() ==> !white_space(s[space_end(s, i)]),
    decreases s.len() - i,
{
    if i < s.len() && white_space(s[i]) {
        lemma_space_end_range(s, i + 1);
    }
}

/// A word scan stops at the first white space, and all it passes over is
/// not white space.
pub proof fn lemma_word_shape(s: Seq<char>)
    ensures
        0 <= word_end(s, 0) <= s.len(),
        no_space(s.take(word_end(s, 0))),
        starts_with_space(s.skip(word_end(s, 0))),
{
    lemma_word_end_range(s, 0);
}

proof fn lemma_word_end_range(s: Seq<char>, i: int)
    requires
        0 <= i <= s.len(),
    ensures
        i <= word_end(s, i) <= s.len(),
        forall|j: int| i <= j < word_end(s, i) ==> !white_space(s[j]),
        word_end(s, i) < s.len() ==> white_space(s[word_end(s, i)]),
    decreases s.len() - i,
{
    if i < s.len() && !white_space(s[i]) {
        lemma_word_end_range(s, i + 1);
    }
}

/// Leading white space does not change what trimming leaves.
pub proof fn lemma_trim_ignores_leading_space(sep: Seq<char>, s: Seq<char>)
    requires
        all_space(sep),
    ensures
        spec_trim_start(sep + s) == spec_trim_start(s),
{
    lemma_trim_shape(s);
    let k = space_end(s, 0);
    let lead = sep + s.take(k);
    assert(all_space(lead));
    assert(sep + s =~= lead + spec_trim_start(s));
    lemma_trim_spaces_before(lead, spec_trim_start(s));
}

} // verus!
