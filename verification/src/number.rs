//! Decimal text of integers: writing an `i64` the way its `Display` does,
//! and reading an `i32` the way its `FromStr` does.

use vstd::prelude::*;

use crate::text::chars_of;

verus! {

/// The character of a decimal digit.
pub open spec fn digit_char(d: int) -> char {
    (('0' as int) + d) as char
}

/// Whether a character is one of `0`..`9`.
pub open spec fn is_ascii_digit(c: char) -> bool {
    '0' <= c && c <= '9'
}

/// The decimal digits of a natural number, most significant first, with no
/// leading zero (zero itself is `0`).
pub open spec fn decimal_digits(n: nat) -> Seq<char>
    decreases n,
{
    if n < 10 {
        seq![digit_char(n as int)]
    } else {
        decimal_digits(n / 10).push(digit_char((n % 10) as int))
    }
}

/// The text that `i64`'s `Display` writes: a `-` for negative numbers, then
/// the decimal digits of the magnitude.
pub open spec fn i64_decimal(v: i64) -> Seq<char> {
    if v < 0 {
        seq!['-'] + decimal_digits((-v) as nat)
    } else {
        decimal_digits(v as nat)
    }
}

/// The number that a text of decimal digits denotes.
pub open spec fn digits_value(s: Seq<char>) -> int
    decreases s.len(),
{
    if s.len() == 0 {
        0
    } else {
        digits_value(s.drop_last()) * 10 + (s.last() as int - '0' as int)
    }
}

/// Whether every character of a text is an ASCII digit.
pub open spec fn all_ascii_digits(s: Seq<char>) -> bool {
    forall|i: int| 0 <= i < s.len() ==> #[trigger] is_ascii_digit(s[i])
}

/// What `i32`'s `FromStr` gives for a text: an optional `+` or `-`, then one
/// or more ASCII digits whose value (negated after a `-`) fits in an `i32`.
/// Anything else, white space included, is refused.
pub open spec fn parse_i32_view(s: Seq<char>) -> Option<i32> {
    let signed = s.len() > 0 && (s[0] == '-' || s[0] == '+');
    let negative = s.len() > 0 && s[0] == '-';
    let digits = if signed {
        s.drop_first()
    } else {
        s
    };
    if digits.len() > 0 && all_ascii_digits(digits) {
        let v = if negative {
            -digits_value(digits)
        } else {
            digits_value(digits)
        };
        if i32::MIN <= v <= i32::MAX {
            Some(v as i32)
        } else {
            None
        }
    } else {
        None
    }
}

/// A text of ASCII digits denotes a number no smaller than any of its
/// prefixes does.
proof fn lemma_digits_value_prefix(s: Seq<char>, k: int)
    requires
        0 <= k <= s.len(),
        forall|i: int| 0 <= i < s.len() ==> #[trigger] is_ascii_digit(s[i]),
    ensures
        0 <= digits_value(s.take(k)) <= digits_value(s),
    decreases s.len(),
{
    if k < s.len() {
        let t = s.drop_last();
        assert forall|i: int| 0 <= i < t.len() implies #[trigger] is_ascii_digit(t[i]) by {
            assert(t[i] == s[i]);
        }
        assert(t.take(k) =~= s.take(k));
        lemma_digits_value_prefix(t, k);
        assert(is_ascii_digit(s.last()));
    } else {
        assert(s.take(k) =~= s);
        lemma_digits_value_nonneg(s);
    }
}

proof fn lemma_digits_value_nonneg(s: Seq<char>)
    requires
        forall|i: int| 0 <= i < s.len() ==> #[trigger] is_ascii_digit(s[i]),
    ensures
        digits_value(s) >= 0,
    decreases s.len(),
{
    if s.len() > 0 {
        let t = s.drop_last();
        assert forall|i: int| 0 <= i < t.len() implies #[trigger] is_ascii_digit(t[i]) by {
            assert(t[i] == s[i]);
        }
        lemma_digits_value_nonneg(t);
        assert(is_ascii_digit(s.last()));
    }
}

/// Reads a decimal `i32` as `str::parse::<i32>` does; `None` where that
/// gives an error.
pub fn parse_i32(s: &str) -> (res: Option<i32>)
    ensures
        res == parse_i32_view(s@),
{
    let chars = chars_of(s);
    let n = chars.len();
    if n == 0 {
        return None;
    }
    let signed = chars[0] == '-' || chars[0] == '+';
    let negative = chars[0] == '-';
    let start: usize = if signed {
        1
    } else {
        0
    };
    let ghost digits = if signed {
        s@.drop_first()
    } else {
        s@
    };
    assert(digits =~= s@.subrange(start as int, n as int));
    if start == n {
        return None;
    }
    let mut acc: i64 = 0;
    let mut i = start;
    while i < n
        invariant
            chars@ == s@,
            n == chars.len(),
            start <= i <= n,
            start < n,
            s@.len() > 0,
            signed == (s@[0] == '-' || s@[0] == '+'),
            negative == (s@[0] == '-'),
            start == (if signed {
                1usize
            } else {
                0usize
            }),
            digits == (if signed {
                s@.drop_first()
            } else {
                s@
            }),
            digits == s@.subrange(start as int, n as int),
            forall|k: int| 0 <= k < i - start ==> #[trigger] is_ascii_digit(digits[k]),
            acc == digits_value(digits.take(i - start)),
            0 <= acc <= 2147483648,
        decreases n - i,
    {
        let c = chars[i];
        if !('0' <= c && c <= '9') {
            assert(!is_ascii_digit(digits[i - start]));
            return None;
        }
        let d = (c as u32 - '0' as u32) as i64;
        assert(digits.take(i - start + 1).drop_last() =~= digits.take(i - start));
        acc = acc * 10 + d;
        i = i + 1;
        if acc > 2147483648 {
            proof {
                if all_ascii_digits(digits) {
                    lemma_digits_value_prefix(digits, i - start);
                }
            }
            return None;
        }
    }
    assert(digits.take(n - start) =~= digits);
    if negative {
        Some((-acc) as i32)
    } else if acc <= 2147483647 {
        Some(acc as i32)
    } else {
        None
    }
}

/// The text of one decimal digit.
fn digit_str(d: u8) -> (s: &'static str)
    requires
        d < 10,
    ensures
        s@ == seq![digit_char(d as int)],
{
    if d == 0 {
        proof { reveal_strlit("0"); }
        "0"
    } else if d == 1 {
        proof { reveal_strlit("1"); }
        "1"
    } else if d == 2 {
        proof { reveal_strlit("2"); }
        "2"
    } else if d == 3 {
        proof { reveal_strlit("3"); }
        "3"
    } else if d == 4 {
        proof { reveal_strlit("4"); }
        "4"
    } else if d == 5 {
        proof { reveal_strlit("5"); }
        "5"
    } else if d == 6 {
        proof { reveal_strlit("6"); }
        "6"
    } else if d == 7 {
        proof { reveal_strlit("7"); }
        "7"
    } else if d == 8 {
        proof { reveal_strlit("8"); }
        "8"
    } else {
        proof { reveal_strlit("9"); }
        "9"
    }
}

/// The characters of the digits `ds`, taken from the last to the first.
pub open spec fn reversed_digits(ds: Seq<u8>) -> Seq<char> {
    Seq::new(ds.len(), |i: int| digit_char(ds[ds.len() - 1 - i] as int))
}

/// Writes an `i64` in decimal, as its `Display` (and `to_string`) does.
pub fn i64_to_string(v: i64) -> (s: String)
    ensures
        s@ == i64_decimal(v),
{
    let ghost m: nat = if v < 0 {
        (-v) as nat
    } else {
        v as nat
    };
    let mut n: u64 = if v < 0 {
        ((-(v + 1)) as u64) + 1
    } else {
        v as u64
    };
    let mut ds: Vec<u8> = Vec::new();
    while n >= 10
        invariant
            decimal_digits(m) == decimal_digits(n as nat) + reversed_digits(ds@),
            forall|k: int| 0 <= k < ds@.len() ==> #[trigger] ds@[k] < 10,
        decreases n,
    {
        let ghost before = ds@;
        ds.push((n % 10) as u8);
        assert(reversed_digits(ds@) =~= seq![digit_char((n % 10) as int)] + reversed_digits(
            before,
        ));
        assert(decimal_digits(n as nat) == decimal_digits((n / 10) as nat).push(
            digit_char((n % 10) as int),
        ));
        n = n / 10;
    }
    let ghost before = ds@;
    ds.push(n as u8);
    assert(reversed_digits(ds@) =~= seq![digit_char(n as int)] + reversed_digits(before));
    let mut out = if v < 0 {
        proof {
            reveal_strlit("-");
        }
        "-".to_owned()
    } else {
        String::new()
    };
    let ghost head = out@;
    let len = ds.len();
    for k in 0..len
        invariant
            len == ds@.len(),
            forall|x: int| 0 <= x < ds@.len() ==> #[trigger] ds@[x] < 10,
            out@ == head + reversed_digits(ds@).take(k as int),
    {
        let d = ds[len - 1 - k];
        out.append(digit_str(d));
        assert(reversed_digits(ds@).take(k + 1) =~= reversed_digits(ds@).take(k as int).push(
            digit_char(d as int),
        ));
    }
    assert(reversed_digits(ds@).take(len as int) =~= reversed_digits(ds@));
    out
}


/// The digits of a number are ASCII digits and denote that number.
proof fn lemma_decimal_digits_value(n: nat)
    ensures
        decimal_digits(n).len() > 0,
        all_ascii_digits(decimal_digits(n)),
        digits_value(decimal_digits(n)) == n,
    decreases n,
{
    let k = (n % 10) as int;
    assert(digit_char(k) as int == '0' as int + k);
    if n < 10 {
        assert(digit_char(n as int) as int == '0' as int + n);
        assert(decimal_digits(n).drop_last() =~= Seq::<char>::empty());
        assert(digits_value(Seq::<char>::empty()) == 0);
        assert(decimal_digits(n).last() == digit_char(n as int));
    } else {
        lemma_decimal_digits_value(n / 10);
        let s = decimal_digits(n);
        let t = decimal_digits(n / 10);
        assert(s.drop_last() =~= t);
        assert(s.last() == digit_char(k));
        assert((n / 10) * 10 + k == n);
        assert(digits_value(s) == digits_value(t) * 10 + (s.last() as int - '0' as int));
        assert forall|i: int| 0 <= i < s.len() implies #[trigger] is_ascii_digit(s[i]) by {
            if i < t.len() {
                assert(s[i] == t[i]);
            }
        }
    }
}

/// Reading back the decimal text of a number that fits in an `i32` gives
/// that number: `parse_i32` undoes `i64_to_string`.
pub proof fn lemma_parse_i32_of_decimal(v: i64)
    requires
        i32::MIN <= v <= i32::MAX,
    ensures
        parse_i32_view(i64_decimal(v)) == Some(v as i32),
{
    let m: nat = if v < 0 {
        (-v) as nat
    } else {
        v as nat
    };
    lemma_decimal_digits_value(m);
    let d = decimal_digits(m);
    assert(is_ascii_digit(d[0]));
    if v < 0 {
        assert((seq!['-'] + d).drop_first() =~= d);
    }
}

} // verus!
