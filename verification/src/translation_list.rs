//! The aggregated list values of a WikDict database (`trans_list`,
//! `sense_list`): texts such as `foo | bar | baz`.

use vstd::prelude::*;

use crate::text::{
    chars_of, is_ascii_alphanumeric, lemma_ascii_white_space, lemma_trim_idempotent,
    lemma_trim_keeps_solid_ends, trim, trim_bounds,
};

verus! {

/// The separator between the entries of an aggregated list: `" | "`.
pub open spec fn is_separator_at(s: Seq<char>, i: int) -> bool {
    &&& 0 <= i
    &&& i + 3 <= s.len()
    &&& s[i] == ' '
    &&& s[i + 1] == '|'
    &&& s[i + 2] == ' '
}

/// The pieces of `s` that `str::split(" | ")` yields, for the piece that
/// begins at `start` and a search for the next separator that has reached
/// `pos`: separators are matched from left to right without overlapping,
/// and the text after the last one is the last piece.
pub open spec fn split_from(s: Seq<char>, start: int, pos: int) -> Seq<Seq<char>>
    decreases s.len() - pos,
{
    if pos + 3 > s.len() {
        seq![s.subrange(start, s.len() as int)]
    } else if is_separator_at(s, pos) {
        seq![s.subrange(start, pos)] + split_from(s, pos + 3, pos + 3)
    } else {
        split_from(s, start, pos + 1)
    }
}

/// The pieces of `s` between the separators `" | "`.
pub open spec fn split_pieces(s: Seq<char>) -> Seq<Seq<char>> {
    split_from(s, 0, 0)
}

/// The entries kept from a list of pieces: each piece trimmed, and the
/// pieces that are empty once trimmed left out.
pub open spec fn kept_entries(pieces: Seq<Seq<char>>) -> Seq<Seq<char>> {
    pieces.map_values(|p: Seq<char>| trim(p)).filter(|p: Seq<char>| p.len() > 0)
}

/// The entries of an aggregated list text.
pub open spec fn parse_entries(s: Seq<char>) -> Seq<Seq<char>> {
    kept_entries(split_pieces(s))
}

/// Raw aggregated WikDict translation list.
///
/// `trans_list` in the generic SQLite database is not necessarily a list of
/// human-readable translations. It is an aggregated representation of target
/// vocables and can contain values such as `foo | bar | baz`, or internal
/// WikDict/DBnary vocable identifiers.
#[derive(Debug, Clone)]
pub struct TranslationList {
    pub values: Vec<String>,
}

impl View for TranslationList {
    type V = Seq<Seq<char>>;

    open spec fn view(&self) -> Seq<Seq<char>> {
        self.values@.map_values(|v: String| v@)
    }
}

impl Default for TranslationList {
    fn default() -> (list: Self)
        ensures
            list@ == Seq::<Seq<char>>::empty(),
    {
        let list = TranslationList { values: Vec::new() };
        assert(list@ =~= Seq::<Seq<char>>::empty());
        list
    }
}

/// Keeping entries distributes over joining lists of pieces.
proof fn lemma_kept_entries_add(a: Seq<Seq<char>>, b: Seq<Seq<char>>)
    ensures
        kept_entries(a + b) == kept_entries(a) + kept_entries(b),
{
    let f = |p: Seq<char>| trim(p);
    let pred = |p: Seq<char>| p.len() > 0;
    assert((a + b).map_values(f) =~= a.map_values(f) + b.map_values(f));
    Seq::filter_distributes_over_add(a.map_values(f), b.map_values(f), pred);
}

/// The entries kept from one piece: the trimmed piece, unless it is empty.
proof fn lemma_kept_entries_one(p: Seq<char>)
    ensures
        kept_entries(seq![p]) == (if trim(p).len() > 0 {
            seq![trim(p)]
        } else {
            Seq::<Seq<char>>::empty()
        }),
{
    let f = |p: Seq<char>| trim(p);
    let pred = |p: Seq<char>| p.len() > 0;
    assert(seq![p].map_values(f) =~= seq![trim(p)]);
    reveal_with_fuel(Seq::filter, 2);
    assert(seq![trim(p)].drop_last() =~= Seq::<Seq<char>>::empty());
    if trim(p).len() > 0 {
        assert(seq![trim(p)].filter(pred) =~= seq![trim(p)]);
    } else {
        assert(seq![trim(p)].filter(pred) =~= Seq::<Seq<char>>::empty());
    }
}


/// An entry that survives a round through the list text unchanged: not
/// empty, without leading or trailing white space, and without `'|'`.
pub open spec fn is_plain_entry(e: Seq<char>) -> bool {
    &&& e.len() > 0
    &&& trim(e) == e
    &&& forall|i: int| 0 <= i < e.len() ==> #[trigger] e[i] != '|'
}

/// The aggregated list text of some entries: the entries joined by `" | "`.
pub open spec fn join_entries(entries: Seq<Seq<char>>) -> Seq<char>
    decreases entries.len(),
{
    if entries.len() == 0 {
        Seq::empty()
    } else if entries.len() == 1 {
        entries[0]
    } else {
        entries[0] + seq![' ', '|', ' '] + join_entries(entries.drop_first())
    }
}

/// Inside a plain entry no separator begins, so the search runs on to the
/// entry's end.
proof fn lemma_split_skips_entry(s: Seq<char>, start: int, pos: int, len_e: int)
    requires
        0 <= start <= pos <= start + len_e <= s.len(),
        forall|i: int| start <= i < start + len_e ==> #[trigger] s[i] != '|',
        start + len_e < s.len() ==> s[start + len_e] == ' ',
    ensures
        split_from(s, start, pos) == split_from(s, start, start + len_e),
    decreases start + len_e - pos,
{
    if pos < start + len_e {
        if pos + 3 > s.len() {
            lemma_split_ends_equal(s, start, pos, start + len_e);
        } else {
            assert(!is_separator_at(s, pos)) by {
                if pos + 1 < start + len_e {
                    assert(s[pos + 1] != '|');
                } else {
                    assert(s[pos + 1] == ' ');
                }
            }
            lemma_split_skips_entry(s, start, pos + 1, len_e);
        }
    }
}

/// Once no separator fits any more, the rest of the text is the last piece.
proof fn lemma_split_end(s: Seq<char>, start: int, pos: int)
    requires
        pos + 3 > s.len(),
    ensures
        split_from(s, start, pos) == seq![s.subrange(start, s.len() as int)],
{
}

proof fn lemma_split_ends_equal(s: Seq<char>, start: int, p1: int, p2: int)
    requires
        p1 + 3 > s.len(),
        p2 + 3 > s.len(),
    ensures
        split_from(s, start, p1) == split_from(s, start, p2),
{
    lemma_split_end(s, start, p1);
    lemma_split_end(s, start, p2);
}

/// The pieces of a text that ends with the joined plain entries are those
/// entries.
proof fn lemma_split_join(s: Seq<char>, start: int, entries: Seq<Seq<char>>)
    requires
        0 <= start <= s.len(),
        entries.len() > 0,
        forall|k: int| 0 <= k < entries.len() ==> is_plain_entry(#[trigger] entries[k]),
        s.subrange(start, s.len() as int) == join_entries(entries),
    ensures
        split_from(s, start, start) == entries,
    decreases entries.len(),
{
    let e = entries[0];
    let le = e.len() as int;
    let rest = s.subrange(start, s.len() as int);
    assert(is_plain_entry(entries[0]));
    if entries.len() == 1 {
        assert(rest == e);
        assert forall|i: int| start <= i < start + le implies #[trigger] s[i] != '|' by {
            assert(s[i] == rest[i - start]);
        }
        lemma_split_skips_entry(s, start, start, le);
        lemma_split_end(s, start, start + le);
        assert(s.subrange(start, s.len() as int) =~= e);
        assert(split_from(s, start, start) =~= entries);
    } else {
        let tail = entries.drop_first();
        assert(rest == e + seq![' ', '|', ' '] + join_entries(tail));
        assert(rest.len() == le + 3 + join_entries(tail).len());
        assert forall|i: int| start <= i < start + le implies #[trigger] s[i] != '|' by {
            assert(s[i] == rest[i - start]);
        }
        assert(s[start + le] == rest[le]);
        lemma_split_skips_entry(s, start, start, le);
        let p = start + le;
        assert(s[p + 1] == rest[le + 1]);
        assert(s[p + 2] == rest[le + 2]);
        assert(is_separator_at(s, p));
        assert(s.subrange(start, p) =~= e);
        assert forall|k: int| 0 <= k < tail.len() implies is_plain_entry(#[trigger] tail[k]) by {
            assert(tail[k] == entries[k + 1]);
        }
        let jt = join_entries(tail);
        assert(rest.len() == le + 3 + jt.len());
        assert forall|i: int| 0 <= i < jt.len() implies #[trigger] s.subrange(
            p + 3,
            s.len() as int,
        )[i] == jt[i] by {
            assert(s[p + 3 + i] == rest[le + 3 + i]);
        }
        assert(s.subrange(p + 3, s.len() as int) =~= jt);
        lemma_split_join(s, p + 3, tail);
        assert(split_from(s, start, start) =~= entries);
    }
}

/// Plain entries are kept as they are.
proof fn lemma_kept_plain_entries(entries: Seq<Seq<char>>)
    requires
        forall|k: int| 0 <= k < entries.len() ==> is_plain_entry(#[trigger] entries[k]),
    ensures
        kept_entries(entries) == entries,
    decreases entries.len(),
{
    if entries.len() > 0 {
        let first = seq![entries[0]];
        let tail = entries.drop_first();
        assert(entries =~= first + tail);
        assert(is_plain_entry(entries[0]));
        lemma_kept_entries_add(first, tail);
        lemma_kept_entries_one(entries[0]);
        assert forall|k: int| 0 <= k < tail.len() implies is_plain_entry(#[trigger] tail[k]) by {
            assert(tail[k] == entries[k + 1]);
        }
        lemma_kept_plain_entries(tail);
    } else {
        assert(kept_entries(entries) =~= entries);
    }
}

/// Parsing undoes joining: plain entries joined by `" | "` parse back to
/// the same entries.
pub proof fn lemma_parse_join(entries: Seq<Seq<char>>)
    requires
        forall|k: int| 0 <= k < entries.len() ==> is_plain_entry(#[trigger] entries[k]),
    ensures
        parse_entries(join_entries(entries)) == entries,
{
    let s = join_entries(entries);
    if entries.len() == 0 {
        assert(s.subrange(0, 0) =~= Seq::<char>::empty());
        assert(split_pieces(s) == seq![Seq::<char>::empty()]);
        lemma_kept_entries_one(Seq::<char>::empty());
        assert(trim(Seq::<char>::empty()) =~= Seq::<char>::empty());
        assert(kept_entries(split_pieces(s)) =~= entries);
    } else {
        assert(s.subrange(0, s.len() as int) =~= s);
        lemma_split_join(s, 0, entries);
        lemma_kept_plain_entries(entries);
    }
}


/// Every entry of a parsed list is non-empty and has neither leading nor
/// trailing white space.
pub proof fn lemma_entries_trimmed(s: Seq<char>, k: int)
    requires
        0 <= k < parse_entries(s).len(),
    ensures
        parse_entries(s)[k].len() > 0,
        trim(parse_entries(s)[k]) == parse_entries(s)[k],
{
    let trimmed = split_pieces(s).map_values(|p: Seq<char>| trim(p));
    let pred = |p: Seq<char>| p.len() > 0;
    let e = parse_entries(s)[k];
    trimmed.lemma_filter_pred(pred, k);
    trimmed.lemma_filter_contains_rev(pred, e);
    let j = choose|j: int| 0 <= j < trimmed.len() && trimmed[j] == e;
    lemma_trim_idempotent(split_pieces(s)[j]);
}


/// Splitting a suffix of a text is splitting the text from the suffix's
/// start on.
proof fn lemma_split_shift(s: Seq<char>, k: int, start: int, pos: int)
    requires
        0 <= k <= s.len(),
        0 <= start <= pos <= s.len() - k,
    ensures
        split_from(s, start + k, pos + k) == split_from(s.subrange(k, s.len() as int), start, pos),
    decreases s.len() - k - pos,
{
    let b = s.subrange(k, s.len() as int);
    if pos + 3 > b.len() {
        assert(s.subrange(start + k, s.len() as int) =~= b.subrange(start, b.len() as int));
    } else {
        assert(s[pos + k] == b[pos]);
        assert(s[pos + k + 1] == b[pos + 1]);
        assert(s[pos + k + 2] == b[pos + 2]);
        if is_separator_at(b, pos) {
            assert(s.subrange(start + k, pos + k) =~= b.subrange(start, pos));
            lemma_split_shift(s, k, pos + 3, pos + 3);
        } else {
            lemma_split_shift(s, k, start, pos + 1);
        }
    }
}

/// A text without `'|'` is a single piece.
proof fn lemma_split_single(a: Seq<char>)
    requires
        forall|i: int| 0 <= i < a.len() ==> #[trigger] a[i] != '|',
    ensures
        split_pieces(a) == seq![a],
{
    lemma_split_skips_entry(a, 0, 0, a.len() as int);
    lemma_split_end(a, 0, a.len() as int);
    assert(a.subrange(0, a.len() as int) =~= a);
}

/// Parsing a text that begins with a piece without `'|'` and a separator
/// gives the entry of that piece, if it is not blank, followed by the
/// entries of the rest.
pub proof fn lemma_parse_append(a: Seq<char>, b: Seq<char>)
    requires
        forall|i: int| 0 <= i < a.len() ==> #[trigger] a[i] != '|',
    ensures
        parse_entries(a + seq![' ', '|', ' '] + b) == parse_entries(a) + parse_entries(b),
        parse_entries(a) == (if trim(a).len() > 0 {
            seq![trim(a)]
        } else {
            Seq::<Seq<char>>::empty()
        }),
{
    let s = a + seq![' ', '|', ' '] + b;
    let la = a.len() as int;
    assert forall|i: int| 0 <= i < la implies #[trigger] s[i] != '|' by {
        assert(s[i] == a[i]);
    }
    assert(s[la] == ' ');
    lemma_split_skips_entry(s, 0, 0, la);
    assert(s[la + 1] == '|');
    assert(s[la + 2] == ' ');
    assert(is_separator_at(s, la));
    assert(s.subrange(0, la) =~= a);
    assert(s.subrange(la + 3, s.len() as int) =~= b);
    lemma_split_shift(s, la + 3, 0, 0);
    assert(split_pieces(s) == seq![a] + split_pieces(b));
    lemma_kept_entries_add(seq![a], split_pieces(b));
    lemma_split_single(a);
    lemma_kept_entries_one(a);
}


/// A single entry that begins and ends with an ASCII letter or digit and
/// holds no `'|'` parses to exactly that entry.
pub proof fn lemma_parse_keeps_alphanumeric_entry(e: Seq<char>)
    requires
        e.len() > 0,
        is_ascii_alphanumeric(e[0]),
        is_ascii_alphanumeric(e.last()),
        forall|i: int| 0 <= i < e.len() ==> #[trigger] e[i] != '|',
    ensures
        parse_entries(e) == seq![e],
{
    lemma_ascii_white_space(e[0]);
    lemma_ascii_white_space(e.last());
    lemma_trim_keeps_solid_ends(e);
    lemma_split_single(e);
    lemma_kept_entries_one(e);
}

impl TranslationList {
    /// Splits an aggregated list text at each `" | "`, trims every piece and
    /// keeps the pieces that are not empty.
    pub fn parse(value: &str) -> (list: Self)
        ensures
            list@ == parse_entries(value@),
    {
        let chars = chars_of(value);
        let n = chars.len();
        let mut values: Vec<String> = Vec::new();
        let mut start: usize = 0;
        let mut pos: usize = 0;
        while n >= 3 && pos <= n - 3
            invariant
                n == chars.len(),
                chars@ == value@,
                start <= pos <= n,
                parse_entries(value@) == values@.map_values(|v: String| v@) + kept_entries(
                    split_from(value@, start as int, pos as int),
                ),
            decreases n - pos,
        {
            if chars[pos] == ' ' && chars[pos + 1] == '|' && chars[pos + 2] == ' ' {
                let ghost rest = split_from(value@, (pos + 3) as int, (pos + 3) as int);
                let ghost piece = value@.subrange(start as int, pos as int);
                assert(split_from(value@, start as int, pos as int) == seq![piece] + rest);
                proof {
                    lemma_kept_entries_add(seq![piece], rest);
                    lemma_kept_entries_one(piece);
                }
                let (a, b) = trim_bounds(&chars, start, pos);
                if a < b {
                    let entry = value.substring_char(a, b).to_owned();
                    let ghost before = values@;
                    values.push(entry);
                    assert(values@.map_values(|v: String| v@) =~= before.map_values(
                        |v: String| v@,
                    ) + seq![trim(piece)]);
                } else {
                    assert(kept_entries(seq![piece]) =~= Seq::<Seq<char>>::empty());
                }
                pos = pos + 3;
                start = pos;
            } else {
                assert(!is_separator_at(value@, pos as int));
                pos = pos + 1;
            }
        }
        let ghost piece = value@.subrange(start as int, n as int);
        assert(split_from(value@, start as int, pos as int) == seq![piece]);
        proof {
            lemma_kept_entries_one(piece);
        }
        let (a, b) = trim_bounds(&chars, start, n);
        if a < b {
            let entry = value.substring_char(a, b).to_owned();
            let ghost before = values@;
            values.push(entry);
            assert(values@.map_values(|v: String| v@) =~= before.map_values(|v: String| v@)
                + seq![trim(piece)]);
        } else {
            assert(kept_entries(seq![piece]) =~= Seq::<Seq<char>>::empty());
        }
        let list = TranslationList { values };
        assert(list@ =~= parse_entries(value@));
        list
    }

    /// Whether the list has no entry.
    pub fn is_empty(&self) -> (empty: bool)
        ensures
            empty == (self@.len() == 0),
    {
        self.values.len() == 0
    }

    /// The entries of the list, in order, as string slices.
    pub fn iter(&self) -> (entries: Vec<&str>)
        ensures
            entries@.map_values(|e: &str| e@) == self@,
    {
        let mut entries: Vec<&str> = Vec::new();
        let n = self.values.len();
        for i in 0..n
            invariant
                n == self.values.len(),
                entries@.len() == i,
                forall|j: int| 0 <= j < i ==> #[trigger] entries@[j]@ == self.values@[j]@,
        {
            entries.push(self.values[i].as_str());
        }
        assert(entries@.map_values(|e: &str| e@) =~= self@);
        entries
    }
}

} // verus!
