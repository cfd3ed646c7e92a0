use wikdict::{
    decode_simple_translation, decode_translation, decode_translation_grouped, prefix_pattern,
    ColumnError, RowError, SqlType, SqlValue,
};

fn text(s: &str) -> SqlValue {
    SqlValue::Text(s.as_bytes().to_vec())
}

#[test]
fn simple_row() {
    let row = decode_simple_translation(&text("hello"), &text("привет | здравствуйте")).unwrap();
    assert_eq!(row.written_rep, "hello");
    assert_eq!(row.trans_list.values, vec!["привет", "здравствуйте"]);
    let row = decode_simple_translation(&text("x"), &SqlValue::Null).unwrap();
    assert!(row.trans_list.is_empty());
}

#[test]
fn simple_row_first_error_wins() {
    assert_eq!(
        decode_simple_translation(&SqlValue::Null, &SqlValue::Blob(vec![0xff])).unwrap_err(),
        RowError {
            column: 0,
            error: ColumnError::InvalidColumnType { index: 0, value_type: SqlType::Null }
        }
    );
    assert_eq!(
        decode_simple_translation(&text("x"), &SqlValue::Blob(vec![0xff])).unwrap_err(),
        RowError {
            column: 1,
            error: ColumnError::ConversionFailure { len: 1, value_type: SqlType::Blob }
        }
    );
}

#[test]
fn grouped_row() {
    let row = decode_translation_grouped(
        &SqlValue::Null,
        &text("bank"),
        &text("2"),
        &text("money | river"),
        &text("Bank | Ufer"),
    )
    .unwrap();
    assert_eq!(row.lexentry, None);
    assert_eq!(row.written_rep, "bank");
    assert_eq!(row.min_sense_num, Some(2));
    assert_eq!(row.sense_list.values, vec!["money", "river"]);
    assert_eq!(row.trans_list.values, vec!["Bank", "Ufer"]);
    assert_eq!(
        decode_translation_grouped(
            &text("e"),
            &SqlValue::Integer(1),
            &SqlValue::Null,
            &SqlValue::Null,
            &SqlValue::Null
        )
        .unwrap_err(),
        RowError {
            column: 1,
            error: ColumnError::InvalidColumnType { index: 1, value_type: SqlType::Integer }
        }
    );
}

#[test]
fn translation_row() {
    let row = decode_translation(
        &text("lex"),
        &SqlValue::Integer(3),
        &SqlValue::Null,
        &text("cat"),
        &text(" Katze "),
    )
    .unwrap();
    assert_eq!(row.lexentry, Some("lex".to_string()));
    assert_eq!(row.sense_num, Some(3));
    assert_eq!(row.sense, None);
    assert_eq!(row.written_rep, "cat");
    assert_eq!(row.trans_list.values, vec!["Katze"]);
    assert_eq!(
        decode_translation(
            &SqlValue::Null,
            &SqlValue::Null,
            &SqlValue::Null,
            &SqlValue::Text(vec![0xc0]),
            &SqlValue::Null
        )
        .unwrap_err(),
        RowError { column: 3, error: ColumnError::Utf8 { index: 3 } }
    );
}

#[test]
fn search_pattern() {
    assert_eq!(prefix_pattern("hel"), "hel%");
    assert_eq!(prefix_pattern(""), "%");
}

#[test]
fn translation_row_conversion_failure_names_its_column() {
    assert_eq!(
        decode_translation(
            &text("ok"),
            &SqlValue::Blob(vec![0xf0, 0x28]),
            &SqlValue::Null,
            &text("w"),
            &SqlValue::Null
        )
        .unwrap_err(),
        RowError {
            column: 1,
            error: ColumnError::ConversionFailure { len: 2, value_type: SqlType::Blob }
        }
    );
}
