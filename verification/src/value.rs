//! The values of a WikDict database column and their conversion into the
//! texts, numbers and flags of a translation record.

use vstd::prelude::*;

use crate::number::{i64_decimal, i64_to_string, parse_i32, parse_i32_view};
use crate::text::{ascii_lower_seq, chars_of, lower_char};
use vstd::utf8::{decode_utf8, valid_utf8};

verus! {

/// The fundamental SQLite datatypes.
#[derive(Debug, Clone, Copy, PartialEq, Eq, Structural)]
pub enum SqlType {
    Null,
    Integer,
    Real,
    Text,
    Blob,
}

/// What the conversions read from a REAL value. The floating-point number
/// itself stays where the value was read; these are its text, its
/// saturating cast to `i32`, and whether it differs from zero.
#[derive(Debug, Clone)]
pub struct RealValue {
    /// The text that the number's `Display` writes.
    pub display: String,
    /// The number cast to `i32` with `as`.
    pub truncated: i32,
    /// Whether the number compares unequal to `0.0`.
    pub nonzero: bool,
}

/// A value read from a column, of one of SQLite's datatypes.
#[derive(Debug, Clone)]
pub enum SqlValue {
    Null,
    Integer(i64),
    Real(RealValue),
    Text(Vec<u8>),
    Blob(Vec<u8>),
}

/// Why a column value could not be converted.
#[derive(Debug, Clone, Copy, PartialEq, Eq, Structural)]
pub enum ColumnError {
    /// The column at `index` was read as a string but holds a value of
    /// another type.
    InvalidColumnType { index: usize, value_type: SqlType },
    /// The TEXT column at `index` was read as a string but is not UTF-8.
    Utf8 { index: usize },
    /// A TEXT or BLOB value of `len` bytes is not UTF-8.
    ConversionFailure { len: usize, value_type: SqlType },
}

/// The text that `String::from_utf8_lossy` makes of some bytes.
pub uninterp spec fn utf8_lossy(bytes: Seq<u8>) -> Seq<char>;

/// `std::str::from_utf8`: the text that the bytes encode, exactly when they
/// are valid UTF-8.
#[verifier::external_body]
fn str_from_utf8(bytes: &[u8]) -> (s: Option<&str>)
    ensures
        s is Some <==> valid_utf8(bytes@),
        s matches Some(t) ==> t@ == decode_utf8(bytes@),
{
    std::str::from_utf8(bytes).ok()
}

/// `String::from_utf8_lossy`: the text of the bytes with every invalid
/// sequence replaced by U+FFFD. Its result on invalid input is only named
/// here; on valid UTF-8 it is the decoded text.
#[verifier::external_body]
fn string_from_utf8_lossy(bytes: &[u8]) -> (s: String)
    ensures
        s@ == utf8_lossy(bytes@),
        valid_utf8(bytes@) ==> s@ == decode_utf8(bytes@),
{
    String::from_utf8_lossy(bytes).into_owned()
}

impl SqlValue {
    /// The datatype of the value.
    pub open spec fn type_view(&self) -> SqlType {
        match self {
            SqlValue::Null => SqlType::Null,
            SqlValue::Integer(_) => SqlType::Integer,
            SqlValue::Real(_) => SqlType::Real,
            SqlValue::Text(_) => SqlType::Text,
            SqlValue::Blob(_) => SqlType::Blob,
        }
    }

    /// Returns the datatype of the value.
    pub fn data_type(&self) -> (t: SqlType)
        ensures
            t == self.type_view(),
    {
        match self {
            SqlValue::Null => SqlType::Null,
            SqlValue::Integer(_) => SqlType::Integer,
            SqlValue::Real(_) => SqlType::Real,
            SqlValue::Text(_) => SqlType::Text,
            SqlValue::Blob(_) => SqlType::Blob,
        }
    }
}

/// The error for bytes of a TEXT or BLOB value that are not UTF-8.
pub open spec fn conversion_failure(bytes: Seq<u8>, value_type: SqlType) -> ColumnError {
    ColumnError::ConversionFailure { len: bytes.len() as usize, value_type }
}

/// A value as a string: NULL is empty, TEXT is its decoded text when it is
/// UTF-8 and is otherwise decoded leniently (invalid sequences become
/// U+FFFD), a BLOB must be UTF-8, and numbers are written
/// as their `Display` writes them.
pub open spec fn value_to_string_view(value: SqlValue) -> Result<Seq<char>, ColumnError> {
    match value {
        SqlValue::Null => Ok(Seq::empty()),
        SqlValue::Text(b) => Ok(
            if valid_utf8(b@) {
                decode_utf8(b@)
            } else {
                utf8_lossy(b@)
            },
        ),
        SqlValue::Blob(b) => if valid_utf8(b@) {
            Ok(decode_utf8(b@))
        } else {
            Err(conversion_failure(b@, SqlType::Blob))
        },
        SqlValue::Integer(i) => Ok(i64_decimal(i)),
        SqlValue::Real(r) => Ok(r.display@),
    }
}

/// A value as an optional string: NULL is no string, anything else is
/// converted as `value_to_string_view` does.
pub open spec fn value_to_optional_string_view(value: SqlValue) -> Result<
    Option<Seq<char>>,
    ColumnError,
> {
    match value {
        SqlValue::Null => Ok(None),
        _ => match value_to_string_view(value) {
            Ok(s) => Ok(Some(s)),
            Err(e) => Err(e),
        },
    }
}

/// A value as an optional `i32`: NULL is none, numbers are cast with `as`
/// (which wraps an `i64` and saturates a float), TEXT and BLOB must be
/// UTF-8 and are read as `i32`'s `FromStr` reads them, none if it refuses.
pub open spec fn value_to_optional_i32_view(value: SqlValue) -> Result<Option<i32>, ColumnError> {
    match value {
        SqlValue::Null => Ok(None),
        SqlValue::Integer(i) => Ok(Some(i as i32)),
        SqlValue::Real(r) => Ok(Some(r.truncated)),
        SqlValue::Text(b) => if valid_utf8(b@) {
            Ok(parse_i32_view(decode_utf8(b@)))
        } else {
            Err(conversion_failure(b@, SqlType::Text))
        },
        SqlValue::Blob(b) => if valid_utf8(b@) {
            Ok(parse_i32_view(decode_utf8(b@)))
        } else {
            Err(conversion_failure(b@, SqlType::Blob))
        },
    }
}

/// Whether a text reads as true: `1` or `true`, in any ASCII case.
pub open spec fn is_true_text(s: Seq<char>) -> bool {
    let l = ascii_lower_seq(s);
    l == seq!['1'] || l == seq!['t', 'r', 'u', 'e']
}

/// A value as a flag: NULL is false, numbers are true when not zero, TEXT
/// and BLOB must be UTF-8 and are true when they read `1` or `true`.
pub open spec fn value_to_bool_view(value: SqlValue) -> Result<bool, ColumnError> {
    match value {
        SqlValue::Null => Ok(false),
        SqlValue::Integer(i) => Ok(i != 0),
        SqlValue::Real(r) => Ok(r.nonzero),
        SqlValue::Text(b) => if valid_utf8(b@) {
            Ok(is_true_text(decode_utf8(b@)))
        } else {
            Err(conversion_failure(b@, SqlType::Text))
        },
        SqlValue::Blob(b) => if valid_utf8(b@) {
            Ok(is_true_text(decode_utf8(b@)))
        } else {
            Err(conversion_failure(b@, SqlType::Blob))
        },
    }
}

/// Reading the column at `index` as a string: only TEXT that is UTF-8.
pub open spec fn text_column_view(index: usize, value: SqlValue) -> Result<Seq<char>, ColumnError> {
    match value {
        SqlValue::Text(b) => if valid_utf8(b@) {
            Ok(decode_utf8(b@))
        } else {
            Err(ColumnError::Utf8 { index })
        },
        _ => Err(ColumnError::InvalidColumnType { index, value_type: value.type_view() }),
    }
}

/// Converts a value into a string; see `value_to_string_view`.
pub fn value_to_string(value: &SqlValue) -> (res: Result<String, ColumnError>)
    ensures
        res matches Ok(s) ==> value_to_string_view(*value) == Ok::<Seq<char>, ColumnError>(s@),
        res matches Err(e) ==> value_to_string_view(*value) == Err::<Seq<char>, ColumnError>(e),
{
    match value {
        SqlValue::Null => Ok(String::new()),
        SqlValue::Text(bytes) => Ok(string_from_utf8_lossy(bytes.as_slice())),
        SqlValue::Blob(bytes) => match str_from_utf8(bytes.as_slice()) {
            Some(s) => Ok(s.to_owned()),
            None => Err(ColumnError::ConversionFailure { len: bytes.len(), value_type: SqlType::Blob }),
        },
        SqlValue::Integer(i) => Ok(i64_to_string(*i)),
        SqlValue::Real(r) => Ok(r.display.clone()),
    }
}

/// Converts a value into an optional string; see
/// `value_to_optional_string_view`.
pub fn value_to_optional_string(value: &SqlValue) -> (res: Result<Option<String>, ColumnError>)
    ensures
        res matches Ok(Some(s)) ==> value_to_optional_string_view(*value) == Ok::<
            Option<Seq<char>>,
            ColumnError,
        >(Some(s@)),
        res matches Ok(None) ==> value_to_optional_string_view(*value) == Ok::<
            Option<Seq<char>>,
            ColumnError,
        >(None),
        res matches Err(e) ==> value_to_optional_string_view(*value) == Err::<
            Option<Seq<char>>,
            ColumnError,
        >(e),
{
    match value {
        SqlValue::Null => Ok(None),
        _ => match value_to_string(value) {
            Ok(s) => Ok(Some(s)),
            Err(e) => Err(e),
        },
    }
}

/// Converts a value into an optional `i32`; see
/// `value_to_optional_i32_view`.
pub fn value_to_optional_i32(value: &SqlValue) -> (res: Result<Option<i32>, ColumnError>)
    ensures
        res == value_to_optional_i32_view(*value),
{
    match value {
        SqlValue::Null => Ok(None),
        SqlValue::Integer(i) => Ok(Some(*i as i32)),
        SqlValue::Real(r) => Ok(Some(r.truncated)),
        SqlValue::Text(bytes) => match str_from_utf8(bytes.as_slice()) {
            Some(s) => Ok(parse_i32(s)),
            None => Err(ColumnError::ConversionFailure { len: bytes.len(), value_type: SqlType::Text }),
        },
        SqlValue::Blob(bytes) => match str_from_utf8(bytes.as_slice()) {
            Some(s) => Ok(parse_i32(s)),
            None => Err(ColumnError::ConversionFailure { len: bytes.len(), value_type: SqlType::Blob }),
        },
    }
}

/// Whether a text reads as true; see `is_true_text`.
fn text_is_true(s: &str) -> (r: bool)
    ensures
        r == is_true_text(s@),
{
    let chars = chars_of(s);
    let ghost l = ascii_lower_seq(s@);
    if chars.len() == 1 {
        let a = lower_char(chars[0]);
        assert(l =~= seq![a]);
        if a == '1' {
            true
        } else {
            assert(l[0] != seq!['1'][0]);
            assert(l.len() != seq!['t', 'r', 'u', 'e'].len());
            false
        }
    } else if chars.len() == 4 {
        let a = lower_char(chars[0]);
        let b = lower_char(chars[1]);
        let c = lower_char(chars[2]);
        let d = lower_char(chars[3]);
        assert(l =~= seq![a, b, c, d]);
        if a == 't' && b == 'r' && c == 'u' && d == 'e' {
            true
        } else {
            let ghost t = seq!['t', 'r', 'u', 'e'];
            assert(l[0] != t[0] || l[1] != t[1] || l[2] != t[2] || l[3] != t[3]);
            assert(l.len() != seq!['1'].len());
            false
        }
    } else {
        assert(l.len() == chars.len());
        assert(l.len() != seq!['1'].len());
        assert(l.len() != seq!['t', 'r', 'u', 'e'].len());
        false
    }
}

/// Converts a value into a flag; see `value_to_bool_view`.
pub fn value_to_bool(value: &SqlValue) -> (res: Result<bool, ColumnError>)
    ensures
        res == value_to_bool_view(*value),
{
    match value {
        SqlValue::Null => Ok(false),
        SqlValue::Integer(i) => Ok(*i != 0),
        SqlValue::Real(r) => Ok(r.nonzero),
        SqlValue::Text(bytes) => match str_from_utf8(bytes.as_slice()) {
            Some(s) => Ok(text_is_true(s)),
            None => Err(ColumnError::ConversionFailure { len: bytes.len(), value_type: SqlType::Text }),
        },
        SqlValue::Blob(bytes) => match str_from_utf8(bytes.as_slice()) {
            Some(s) => Ok(text_is_true(s)),
            None => Err(ColumnError::ConversionFailure { len: bytes.len(), value_type: SqlType::Blob }),
        },
    }
}


/// rusqlite's `FromSql for String` on a TEXT value, which goes through
/// `std::str::from_utf8`: the text exactly when the bytes are UTF-8.
#[verifier::external_body]
fn string_from_text_value(bytes: &[u8]) -> (s: Option<String>)
    ensures
        s is Some <==> valid_utf8(bytes@),
        s matches Some(t) ==> t@ == decode_utf8(bytes@),
{
    <String as rusqlite::types::FromSql>::column_result(rusqlite::types::ValueRef::Text(bytes)).ok()
}

/// Reads the column at `index` as a string, as `Row::get::<String>` does:
/// only a TEXT value that is UTF-8 gives a string.
pub fn text_column(index: usize, value: &SqlValue) -> (res: Result<String, ColumnError>)
    ensures
        res matches Ok(s) ==> text_column_view(index, *value) == Ok::<Seq<char>, ColumnError>(s@),
        res matches Err(e) ==> text_column_view(index, *value) == Err::<Seq<char>, ColumnError>(e),
{
    match value {
        SqlValue::Text(bytes) => match string_from_text_value(bytes.as_slice()) {
            Some(s) => Ok(s),
            None => Err(ColumnError::Utf8 { index }),
        },
        _ => Err(ColumnError::InvalidColumnType { index, value_type: value.data_type() }),
    }
}

} // verus!
