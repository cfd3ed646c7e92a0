//! Character-level text helpers shared by the parsers of this crate.

use vstd::prelude::*;

verus! {

/// ASCII lowercase of one character: `A`..`Z` become `a`..`z`, every other
/// character is left as it is.
pub open spec fn ascii_lower(c: char) -> char {
    if 'A' <= c && c <= 'Z' {
        ((c as u32) + 32) as char
    } else {
        c
    }
}

/// ASCII lowercase of a whole text, character by character.
pub open spec fn ascii_lower_seq(s: Seq<char>) -> Seq<char> {
    s.map_values(|c: char| ascii_lower(c))
}

/// Lowercases one character the way `char::to_ascii_lowercase` does.
pub fn lower_char(c: char) -> (r: char)
    ensures
        r == ascii_lower(c),
{
    if 'A' <= c && c <= 'Z' {
        ((c as u8) + 32) as char
    } else {
        c
    }
}

/// The characters of a string, in order.
pub fn chars_of(s: &str) -> (v: Vec<char>)
    ensures
        v@ == s@,
{
    let mut v: Vec<char> = Vec::new();
    for c in it: s.chars()
        invariant
            v@ == it.seq().take(it.index() as int),
    {
        v.push(c);
    }
    v
}


/// The characters that Unicode gives the `White_Space` property, which is
/// what `char::is_whitespace` and therefore `str::trim` test.
pub open spec fn is_white_space(c: char) -> bool {
    ||| ('\u{9}' <= c && c <= '\u{d}')
    ||| c == ' '
    ||| c == '\u{85}'
    ||| c == '\u{a0}'
    ||| c == '\u{1680}'
    ||| ('\u{2000}' <= c && c <= '\u{200a}')
    ||| c == '\u{2028}'
    ||| c == '\u{2029}'
    ||| c == '\u{202f}'
    ||| c == '\u{205f}'
    ||| c == '\u{3000}'
}

/// The text without its leading white space.
pub open spec fn trim_start(s: Seq<char>) -> Seq<char>
    decreases s.len(),
{
    if s.len() > 0 && is_white_space(s[0]) {
        trim_start(s.drop_first())
    } else {
        s
    }
}

/// The text without its trailing white space.
pub open spec fn trim_end(s: Seq<char>) -> Seq<char>
    decreases s.len(),
{
    if s.len() > 0 && is_white_space(s.last()) {
        trim_end(s.drop_last())
    } else {
        s
    }
}

/// The text without leading and trailing white space, as `str::trim` gives it.
pub open spec fn trim(s: Seq<char>) -> Seq<char> {
    trim_end(trim_start(s))
}

/// Tests one character for the `White_Space` property.
pub fn is_white_space_char(c: char) -> (r: bool)
    ensures
        r == is_white_space(c),
{
    ('\u{9}' <= c && c <= '\u{d}') || c == ' ' || c == '\u{85}' || c == '\u{a0}' || c == '\u{1680}'
        || ('\u{2000}' <= c && c <= '\u{200a}') || c == '\u{2028}' || c == '\u{2029}' || c
        == '\u{202f}' || c == '\u{205f}' || c == '\u{3000}'
}

/// The first position in `chars[from..to]` that does not hold white space,
/// or `to` when there is none.
pub fn skip_white_space(chars: &Vec<char>, from: usize, to: usize) -> (i: usize)
    requires
        from <= to <= chars.len(),
    ensures
        from <= i <= to,
        trim_start(chars@.subrange(from as int, to as int)) == chars@.subrange(i as int, to as int),
{
    let mut i = from;
    while i < to && is_white_space_char(chars[i])
        invariant
            from <= i <= to <= chars.len(),
            trim_start(chars@.subrange(from as int, to as int)) == trim_start(
                chars@.subrange(i as int, to as int),
            ),
        decreases to - i,
    {
        assert(chars@.subrange(i as int, to as int).drop_first() =~= chars@.subrange(
            i + 1,
            to as int,
        ));
        i = i + 1;
    }
    i
}

/// One past the last position in `chars[from..to]` that does not hold white
/// space, or `from` when there is none.
pub fn skip_white_space_back(chars: &Vec<char>, from: usize, to: usize) -> (j: usize)
    requires
        from <= to <= chars.len(),
    ensures
        from <= j <= to,
        trim_end(chars@.subrange(from as int, to as int)) == chars@.subrange(from as int, j as int),
{
    let mut j = to;
    while j > from && is_white_space_char(chars[j - 1])
        invariant
            from <= j <= to <= chars.len(),
            trim_end(chars@.subrange(from as int, to as int)) == trim_end(
                chars@.subrange(from as int, j as int),
            ),
        decreases j - from,
    {
        assert(chars@.subrange(from as int, j as int).drop_last() =~= chars@.subrange(
            from as int,
            j - 1,
        ));
        j = j - 1;
    }
    j
}

/// The trimmed part of `chars[from..to]`, as a pair of positions.
pub fn trim_bounds(chars: &Vec<char>, from: usize, to: usize) -> (r: (usize, usize))
    requires
        from <= to <= chars.len(),
    ensures
        from <= r.0 <= r.1 <= to,
        trim(chars@.subrange(from as int, to as int)) == chars@.subrange(r.0 as int, r.1 as int),
{
    let i = skip_white_space(chars, from, to);
    let j = skip_white_space_back(chars, i, to);
    (i, j)
}


/// What is left after trimming the start begins with a character that is
/// not white space.
pub proof fn lemma_trim_start_first(s: Seq<char>)
    ensures
        trim_start(s).len() > 0 ==> !is_white_space(trim_start(s)[0]),
    decreases s.len(),
{
    if s.len() > 0 && is_white_space(s[0]) {
        lemma_trim_start_first(s.drop_first());
    }
}

/// Trimming the end keeps a prefix, which ends with a character that is not
/// white space.
pub proof fn lemma_trim_end_prefix(s: Seq<char>)
    ensures
        trim_end(s).len() <= s.len(),
        trim_end(s) == s.subrange(0, trim_end(s).len() as int),
        trim_end(s).len() > 0 ==> !is_white_space(trim_end(s).last()),
    decreases s.len(),
{
    if s.len() > 0 && is_white_space(s.last()) {
        lemma_trim_end_prefix(s.drop_last());
        assert(s.drop_last().subrange(0, trim_end(s).len() as int) =~= s.subrange(
            0,
            trim_end(s).len() as int,
        ));
    } else {
        assert(s.subrange(0, s.len() as int) =~= s);
    }
}

/// Trimming twice trims no more than trimming once.
pub proof fn lemma_trim_idempotent(s: Seq<char>)
    ensures
        trim(trim(s)) == trim(s),
{
    let u = trim_start(s);
    let t = trim(s);
    lemma_trim_start_first(s);
    lemma_trim_end_prefix(u);
    if t.len() > 0 {
        assert(t[0] == u[0]);
    }
    assert(trim_start(t) == t);
    assert(trim_end(t) == t);
}


/// ASCII uppercase of one character: `a`..`z` become `A`..`Z`, every other
/// character is left as it is.
pub open spec fn ascii_upper(c: char) -> char {
    if 'a' <= c && c <= 'z' {
        ((c as u32) - 32) as char
    } else {
        c
    }
}

/// ASCII uppercase of a whole text, character by character.
pub open spec fn ascii_upper_seq(s: Seq<char>) -> Seq<char> {
    s.map_values(|c: char| ascii_upper(c))
}

/// Lowercasing undoes uppercasing on lower-case letters, and lowercasing a
/// capital letter gives the letter 32 code points above it.
pub proof fn lemma_ascii_lower_upper(c: char)
    ensures
        'a' <= c <= 'z' ==> ascii_lower(ascii_upper(c)) == c,
        'A' <= c <= 'Z' ==> ascii_lower(c) as u32 == c as u32 + 32 && 'a' <= ascii_lower(c) <= 'z',
        !('A' <= c <= 'Z') ==> ascii_lower(c) == c,
{
    if 'a' <= c <= 'z' {
        assert(ascii_upper(c) as u32 == c as u32 - 32);
    }
    if 'A' <= c <= 'Z' {
        assert(ascii_lower(c) as u32 == c as u32 + 32);
    }
}

/// Whether a character is an ASCII letter or digit.
pub open spec fn is_ascii_alphanumeric(c: char) -> bool {
    ||| ('a' <= c && c <= 'z')
    ||| ('A' <= c && c <= 'Z')
    ||| ('0' <= c && c <= '9')
}

/// Among ASCII characters, white space is the space and the controls from
/// tab to carriage return; in particular no letter or digit is white space.
pub proof fn lemma_ascii_white_space(c: char)
    ensures
        (c as u32) < 128 ==> (is_white_space(c) <==> (c == ' ' || ('\t' <= c && c <= '\r'))),
        is_ascii_alphanumeric(c) ==> !is_white_space(c),
{
}

/// A text that begins and ends with a character that is not white space is
/// left as it is by trimming.
pub proof fn lemma_trim_keeps_solid_ends(s: Seq<char>)
    requires
        s.len() > 0,
        !is_white_space(s[0]),
        !is_white_space(s.last()),
    ensures
        trim(s) == s,
{
}

} // verus!
