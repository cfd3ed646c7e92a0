//! The rows of the three WikDict tables that the library reads, decoded
//! column by column up to the first score column. The scores are floating
//! point numbers and are decoded where the row was read.

use vstd::prelude::*;

use crate::translation_list::{
    is_plain_entry, join_entries, lemma_parse_join, parse_entries, TranslationList,
};
use vstd::utf8::{decode_utf8, valid_utf8};
use crate::value::{
    text_column, text_column_view, value_to_optional_i32, value_to_optional_i32_view,
    value_to_optional_string, value_to_optional_string_view, value_to_string,
    value_to_string_view, ColumnError, SqlValue,
};

verus! {

/// The query of `simple_translation` for an exact word.
pub const LOOKUP_SIMPLE_SQL: &'static str =
    "SELECT written_rep, trans_list, max_score, rel_importance FROM simple_translation WHERE written_rep = ?1 ORDER BY max_score DESC";

/// The query of `simple_translation` for a prefix (a `LIKE` pattern) and a
/// limit on the number of rows.
pub const SEARCH_SIMPLE_SQL: &'static str =
    "SELECT written_rep, trans_list, max_score, rel_importance FROM simple_translation WHERE written_rep LIKE ?1 ORDER BY max_score DESC LIMIT ?2";

/// The query of `translation_grouped` for an exact word.
pub const LOOKUP_GROUPED_SQL: &'static str =
    "SELECT lexentry, written_rep, min_sense_num, sense_list, trans_list, score, importance FROM translation_grouped WHERE written_rep = ?1 ORDER BY score DESC";

/// The query of `translation` for an exact word.
pub const LOOKUP_TRANSLATIONS_SQL: &'static str =
    "SELECT lexentry, sense_num, sense, written_rep, trans_list, score, is_good, importance FROM translation WHERE written_rep = ?1 ORDER BY score DESC";

/// The `LIKE` pattern that matches every text beginning with `prefix`: the
/// prefix followed by `%`. The prefix is used as it is, so a `%` or `_` in
/// it keeps its `LIKE` meaning.
pub fn prefix_pattern(prefix: &str) -> (pattern: String)
    ensures
        pattern@ == prefix@ + seq!['%'],
{
    let mut pattern = prefix.to_owned();
    let percent = "%";
    proof {
        reveal_strlit("%");
    }
    pattern.append(percent);
    pattern
}

/// A column of a row that could not be decoded: its position in the query
/// and what went wrong.
#[derive(Debug, Clone, Copy, PartialEq, Eq, Structural)]
pub struct RowError {
    pub column: usize,
    pub error: ColumnError,
}

/// The text columns of a `simple_translation` row.
#[derive(Debug, Clone)]
pub struct SimpleTranslationText {
    pub written_rep: String,
    /// Raw WikDict aggregated translation/vocable list.
    pub trans_list: TranslationList,
}

impl View for SimpleTranslationText {
    type V = (Seq<char>, Seq<Seq<char>>);

    open spec fn view(&self) -> (Seq<char>, Seq<Seq<char>>) {
        (self.written_rep@, self.trans_list@)
    }
}

/// Decoding the columns `written_rep` (0) and `trans_list` (1): the first
/// column is read as a string, the second converted to a string and parsed
/// as a list; the first column that fails gives the error, with its position.
pub open spec fn simple_translation_view(written_rep: SqlValue, trans_list: SqlValue) -> Result<
    (Seq<char>, Seq<Seq<char>>),
    RowError,
> {
    match text_column_view(0, written_rep) {
        Err(e) => Err(RowError { column: 0, error: e }),
        Ok(w) => match value_to_string_view(trans_list) {
            Err(e) => Err(RowError { column: 1, error: e }),
            Ok(t) => Ok((w, parse_entries(t))),
        },
    }
}

/// Decodes the text columns of a `simple_translation` row.
pub fn decode_simple_translation(written_rep: &SqlValue, trans_list: &SqlValue) -> (res: Result<
    SimpleTranslationText,
    RowError,
>)
    ensures
        res matches Ok(r) ==> simple_translation_view(*written_rep, *trans_list) == Ok::<
            (Seq<char>, Seq<Seq<char>>),
            RowError,
        >(r@),
        res matches Err(e) ==> simple_translation_view(*written_rep, *trans_list) == Err::<
            (Seq<char>, Seq<Seq<char>>),
            RowError,
        >(e),
{
    let written_rep = match text_column(0, written_rep) {
        Ok(w) => w,
        Err(e) => return Err(RowError { column: 0, error: e }),
    };
    let trans_list = match value_to_string(trans_list) {
        Ok(t) => TranslationList::parse(t.as_str()),
        Err(e) => return Err(RowError { column: 1, error: e }),
    };
    Ok(SimpleTranslationText { written_rep, trans_list })
}

/// The optional text of an optional string.
pub open spec fn option_view(o: Option<String>) -> Option<Seq<char>> {
    match o {
        Some(s) => Some(s@),
        None => None,
    }
}

/// The leading columns of a `translation_grouped` row, before the scores.
#[derive(Debug, Clone)]
pub struct TranslationGroupedText {
    pub lexentry: Option<String>,
    pub written_rep: String,
    pub min_sense_num: Option<i32>,
    /// Aggregated senses.
    pub sense_list: TranslationList,
    /// Raw aggregated target vocables/translations.
    pub trans_list: TranslationList,
}

impl View for TranslationGroupedText {
    type V = (Option<Seq<char>>, Seq<char>, Option<i32>, Seq<Seq<char>>, Seq<Seq<char>>);

    open spec fn view(&self) -> Self::V {
        (
            option_view(self.lexentry),
            self.written_rep@,
            self.min_sense_num,
            self.sense_list@,
            self.trans_list@,
        )
    }
}

/// Decoding the columns `lexentry` (0), `written_rep` (1), `min_sense_num`
/// (2), `sense_list` (3) and `trans_list` (4) in that order; the first
/// column that fails gives the error, with its position.
pub open spec fn translation_grouped_view(
    lexentry: SqlValue,
    written_rep: SqlValue,
    min_sense_num: SqlValue,
    sense_list: SqlValue,
    trans_list: SqlValue,
) -> Result<(Option<Seq<char>>, Seq<char>, Option<i32>, Seq<Seq<char>>, Seq<Seq<char>>), RowError> {
    match value_to_optional_string_view(lexentry) {
        Err(e) => Err(RowError { column: 0, error: e }),
        Ok(l) => match text_column_view(1, written_rep) {
            Err(e) => Err(RowError { column: 1, error: e }),
            Ok(w) => match value_to_optional_i32_view(min_sense_num) {
                Err(e) => Err(RowError { column: 2, error: e }),
                Ok(m) => match value_to_string_view(sense_list) {
                    Err(e) => Err(RowError { column: 3, error: e }),
                    Ok(s) => match value_to_string_view(trans_list) {
                        Err(e) => Err(RowError { column: 4, error: e }),
                        Ok(t) => Ok((l, w, m, parse_entries(s), parse_entries(t))),
                    },
                },
            },
        },
    }
}

/// Decodes the leading columns of a `translation_grouped` row.
pub fn decode_translation_grouped(
    lexentry: &SqlValue,
    written_rep: &SqlValue,
    min_sense_num: &SqlValue,
    sense_list: &SqlValue,
    trans_list: &SqlValue,
) -> (res: Result<TranslationGroupedText, RowError>)
    ensures
        res matches Ok(r) ==> translation_grouped_view(
            *lexentry,
            *written_rep,
            *min_sense_num,
            *sense_list,
            *trans_list,
        ) == Ok::<
            (Option<Seq<char>>, Seq<char>, Option<i32>, Seq<Seq<char>>, Seq<Seq<char>>),
            RowError,
        >(r@),
        res matches Err(e) ==> translation_grouped_view(
            *lexentry,
            *written_rep,
            *min_sense_num,
            *sense_list,
            *trans_list,
        ) == Err::<
            (Option<Seq<char>>, Seq<char>, Option<i32>, Seq<Seq<char>>, Seq<Seq<char>>),
            RowError,
        >(e),
{
    let lexentry = match value_to_optional_string(lexentry) {
        Ok(l) => l,
        Err(e) => return Err(RowError { column: 0, error: e }),
    };
    let written_rep = match text_column(1, written_rep) {
        Ok(w) => w,
        Err(e) => return Err(RowError { column: 1, error: e }),
    };
    let min_sense_num = match value_to_optional_i32(min_sense_num) {
        Ok(m) => m,
        Err(e) => return Err(RowError { column: 2, error: e }),
    };
    let sense_list = match value_to_string(sense_list) {
        Ok(s) => TranslationList::parse(s.as_str()),
        Err(e) => return Err(RowError { column: 3, error: e }),
    };
    let trans_list = match value_to_string(trans_list) {
        Ok(t) => TranslationList::parse(t.as_str()),
        Err(e) => return Err(RowError { column: 4, error: e }),
    };
    Ok(TranslationGroupedText { lexentry, written_rep, min_sense_num, sense_list, trans_list })
}

/// The leading columns of a `translation` row, before the first score.
#[derive(Debug, Clone)]
pub struct TranslationText {
    pub lexentry: Option<String>,
    pub sense_num: Option<i32>,
    pub sense: Option<String>,
    pub written_rep: String,
    /// Raw target vocable/translation.
    pub trans_list: TranslationList,
}

impl View for TranslationText {
    type V = (Option<Seq<char>>, Option<i32>, Option<Seq<char>>, Seq<char>, Seq<Seq<char>>);

    open spec fn view(&self) -> Self::V {
        (
            option_view(self.lexentry),
            self.sense_num,
            option_view(self.sense),
            self.written_rep@,
            self.trans_list@,
        )
    }
}

/// Decoding the columns `lexentry` (0), `sense_num` (1), `sense` (2),
/// `written_rep` (3) and `trans_list` (4) in that order; the first column
/// that fails gives the error, with its position.
pub open spec fn translation_view(
    lexentry: SqlValue,
    sense_num: SqlValue,
    sense: SqlValue,
    written_rep: SqlValue,
    trans_list: SqlValue,
) -> Result<(Option<Seq<char>>, Option<i32>, Option<Seq<char>>, Seq<char>, Seq<Seq<char>>), RowError> {
    match value_to_optional_string_view(lexentry) {
        Err(e) => Err(RowError { column: 0, error: e }),
        Ok(l) => match value_to_optional_i32_view(sense_num) {
            Err(e) => Err(RowError { column: 1, error: e }),
            Ok(n) => match value_to_optional_string_view(sense) {
                Err(e) => Err(RowError { column: 2, error: e }),
                Ok(s) => match text_column_view(3, written_rep) {
                    Err(e) => Err(RowError { column: 3, error: e }),
                    Ok(w) => match value_to_string_view(trans_list) {
                        Err(e) => Err(RowError { column: 4, error: e }),
                        Ok(t) => Ok((l, n, s, w, parse_entries(t))),
                    },
                },
            },
        },
    }
}

/// Decodes the leading columns of a `translation` row.
pub fn decode_translation(
    lexentry: &SqlValue,
    sense_num: &SqlValue,
    sense: &SqlValue,
    written_rep: &SqlValue,
    trans_list: &SqlValue,
) -> (res: Result<TranslationText, RowError>)
    ensures
        res matches Ok(r) ==> translation_view(
            *lexentry,
            *sense_num,
            *sense,
            *written_rep,
            *trans_list,
        ) == Ok::<
            (Option<Seq<char>>, Option<i32>, Option<Seq<char>>, Seq<char>, Seq<Seq<char>>),
            RowError,
        >(r@),
        res matches Err(e) ==> translation_view(
            *lexentry,
            *sense_num,
            *sense,
            *written_rep,
            *trans_list,
        ) == Err::<
            (Option<Seq<char>>, Option<i32>, Option<Seq<char>>, Seq<char>, Seq<Seq<char>>),
            RowError,
        >(e),
{
    let lexentry = match value_to_optional_string(lexentry) {
        Ok(l) => l,
        Err(e) => return Err(RowError { column: 0, error: e }),
    };
    let sense_num = match value_to_optional_i32(sense_num) {
        Ok(n) => n,
        Err(e) => return Err(RowError { column: 1, error: e }),
    };
    let sense = match value_to_optional_string(sense) {
        Ok(s) => s,
        Err(e) => return Err(RowError { column: 2, error: e }),
    };
    let written_rep = match text_column(3, written_rep) {
        Ok(w) => w,
        Err(e) => return Err(RowError { column: 3, error: e }),
    };
    let trans_list = match value_to_string(trans_list) {
        Ok(t) => TranslationList::parse(t.as_str()),
        Err(e) => return Err(RowError { column: 4, error: e }),
    };
    Ok(TranslationText { lexentry, sense_num, sense, written_rep, trans_list })
}


/// A column that holds NULL or UTF-8 TEXT.
pub open spec fn is_null_or_utf8_text(v: SqlValue) -> bool {
    match v {
        SqlValue::Null => true,
        SqlValue::Text(b) => valid_utf8(b@),
        _ => false,
    }
}

/// A column that holds UTF-8 TEXT.
pub open spec fn is_utf8_text(v: SqlValue) -> bool {
    match v {
        SqlValue::Text(b) => valid_utf8(b@),
        _ => false,
    }
}

/// A column that holds NULL or an INTEGER.
pub open spec fn is_null_or_integer(v: SqlValue) -> bool {
    match v {
        SqlValue::Null => true,
        SqlValue::Integer(_) => true,
        _ => false,
    }
}

/// The text that a TEXT column holds, decoded; none for any other column.
pub open spec fn stored_text(v: SqlValue) -> Option<Seq<char>> {
    match v {
        SqlValue::Text(b) => Some(decode_utf8(b@)),
        _ => None,
    }
}

/// The integer that an INTEGER column holds, cast to `i32`; none for any
/// other column.
pub open spec fn stored_integer(v: SqlValue) -> Option<i32> {
    match v {
        SqlValue::Integer(i) => Some(i as i32),
        _ => None,
    }
}

/// A TEXT column that stores some plain entries joined by `" | "`.
pub open spec fn stores_joined_entries(v: SqlValue, entries: Seq<Seq<char>>) -> bool {
    &&& is_utf8_text(v)
    &&& stored_text(v) == Some(join_entries(entries))
    &&& forall|k: int| 0 <= k < entries.len() ==> is_plain_entry(#[trigger] entries[k])
}

/// A `simple_translation` row of UTF-8 TEXT decodes: its word is the stored
/// text, and its list holds exactly the entries that the list column joins.
pub proof fn lemma_simple_translation_row(
    written_rep: SqlValue,
    trans_list: SqlValue,
    entries: Seq<Seq<char>>,
)
    requires
        is_utf8_text(written_rep),
        stores_joined_entries(trans_list, entries),
    ensures
        simple_translation_view(written_rep, trans_list) matches Ok(r) && Some(r.0) == stored_text(
            written_rep,
        ) && r.1 == entries,
{
    lemma_parse_join(entries);
}

/// A `translation_grouped` row whose columns hold what the table stores
/// decodes every column: the entry and the word are the stored texts (no
/// entry for NULL), the sense number is the stored integer (none for NULL),
/// and each list holds exactly the entries that its column joins.
pub proof fn lemma_translation_grouped_row(
    lexentry: SqlValue,
    written_rep: SqlValue,
    min_sense_num: SqlValue,
    sense_list: SqlValue,
    trans_list: SqlValue,
    senses: Seq<Seq<char>>,
    translations: Seq<Seq<char>>,
)
    requires
        is_null_or_utf8_text(lexentry),
        is_utf8_text(written_rep),
        is_null_or_integer(min_sense_num),
        stores_joined_entries(sense_list, senses),
        stores_joined_entries(trans_list, translations),
    ensures
        translation_grouped_view(lexentry, written_rep, min_sense_num, sense_list, trans_list) matches Ok(
            r,
        ) && r.0 == stored_text(lexentry) && Some(r.1) == stored_text(written_rep) && r.2
            == stored_integer(min_sense_num) && r.3 == senses && r.4 == translations,
{
    lemma_parse_join(senses);
    lemma_parse_join(translations);
}

/// A `translation` row whose columns hold what the table stores decodes
/// every column: the entry, the sense and the word are the stored texts (no
/// entry or sense for NULL), the sense number is the stored integer (none
/// for NULL), and the list holds exactly the entries that its column joins.
pub proof fn lemma_translation_row(
    lexentry: SqlValue,
    sense_num: SqlValue,
    sense: SqlValue,
    written_rep: SqlValue,
    trans_list: SqlValue,
    translations: Seq<Seq<char>>,
)
    requires
        is_null_or_utf8_text(lexentry),
        is_null_or_integer(sense_num),
        is_null_or_utf8_text(sense),
        is_utf8_text(written_rep),
        stores_joined_entries(trans_list, translations),
    ensures
        translation_view(lexentry, sense_num, sense, written_rep, trans_list) matches Ok(r) && r.0
            == stored_text(lexentry) && r.1 == stored_integer(sense_num) && r.2 == stored_text(sense)
            && Some(r.3) == stored_text(written_rep) && r.4 == translations,
{
    lemma_parse_join(translations);
}

} // verus!
