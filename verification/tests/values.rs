use wikdict::{
    i64_to_string, parse_i32, text_column, value_to_bool, value_to_optional_i32,
    value_to_optional_string, value_to_string, ColumnError, RealValue, SqlType, SqlValue,
};

fn real_value(x: f64) -> SqlValue {
    SqlValue::Real(RealValue { display: x.to_string(), truncated: x as i32, nonzero: x != 0.0 })
}

fn text(s: &str) -> SqlValue {
    SqlValue::Text(s.as_bytes().to_vec())
}

#[test]
fn integers_are_written_in_decimal() {
    assert_eq!(i64_to_string(0), "0");
    assert_eq!(i64_to_string(7), "7");
    assert_eq!(i64_to_string(-42), "-42");
    assert_eq!(i64_to_string(1234567890), "1234567890");
    assert_eq!(i64_to_string(i64::MAX), i64::MAX.to_string());
    assert_eq!(i64_to_string(i64::MIN), i64::MIN.to_string());
}

#[test]
fn i32_parsing_matches_std() {
    for s in [
        "0", "+5", "-5", "42", "-2147483648", "2147483647", "2147483648", "-2147483649", "", "+",
        "-", " 1", "1 ", "1.5", "0012", "99999999999999999999", "+-1", "٣",
    ] {
        assert_eq!(parse_i32(s), s.parse::<i32>().ok(), "input {s:?}");
    }
}

#[test]
fn value_to_string_cases() {
    assert_eq!(value_to_string(&SqlValue::Null), Ok(String::new()));
    assert_eq!(value_to_string(&text("hello")), Ok("hello".to_string()));
    assert_eq!(value_to_string(&SqlValue::Text(vec![b'a', 0xff])), Ok("a\u{fffd}".to_string()));
    assert_eq!(value_to_string(&SqlValue::Blob(b"blob".to_vec())), Ok("blob".to_string()));
    assert_eq!(
        value_to_string(&SqlValue::Blob(vec![0xc3])),
        Err(ColumnError::ConversionFailure { len: 1, value_type: SqlType::Blob })
    );
    assert_eq!(value_to_string(&SqlValue::Integer(-17)), Ok("-17".to_string()));
    assert_eq!(value_to_string(&real_value(1.5)), Ok("1.5".to_string()));
}

#[test]
fn value_to_optional_string_cases() {
    assert_eq!(value_to_optional_string(&SqlValue::Null), Ok(None));
    assert_eq!(value_to_optional_string(&text("")), Ok(Some(String::new())));
    assert_eq!(value_to_optional_string(&SqlValue::Integer(3)), Ok(Some("3".to_string())));
    assert_eq!(
        value_to_optional_string(&SqlValue::Blob(vec![0x80, 0x80])),
        Err(ColumnError::ConversionFailure { len: 2, value_type: SqlType::Blob })
    );
}

#[test]
fn value_to_optional_i32_cases() {
    assert_eq!(value_to_optional_i32(&SqlValue::Null), Ok(None));
    assert_eq!(value_to_optional_i32(&SqlValue::Integer(12)), Ok(Some(12)));
    assert_eq!(value_to_optional_i32(&SqlValue::Integer(1 << 32 | 5)), Ok(Some(5)));
    assert_eq!(value_to_optional_i32(&real_value(3.9)), Ok(Some(3)));
    assert_eq!(value_to_optional_i32(&text("-8")), Ok(Some(-8)));
    assert_eq!(value_to_optional_i32(&text("abc")), Ok(None));
    assert_eq!(value_to_optional_i32(&SqlValue::Blob(b"77".to_vec())), Ok(Some(77)));
    assert_eq!(
        value_to_optional_i32(&SqlValue::Text(vec![0xfe])),
        Err(ColumnError::ConversionFailure { len: 1, value_type: SqlType::Text })
    );
}

#[test]
fn value_to_bool_cases() {
    assert_eq!(value_to_bool(&SqlValue::Null), Ok(false));
    assert_eq!(value_to_bool(&SqlValue::Integer(0)), Ok(false));
    assert_eq!(value_to_bool(&SqlValue::Integer(-3)), Ok(true));
    assert_eq!(value_to_bool(&real_value(0.0)), Ok(false));
    assert_eq!(value_to_bool(&real_value(0.25)), Ok(true));
    assert_eq!(value_to_bool(&text("TRUE")), Ok(true));
    assert_eq!(value_to_bool(&text("1")), Ok(true));
    assert_eq!(value_to_bool(&text("yes")), Ok(false));
    assert_eq!(value_to_bool(&text(" true")), Ok(false));
    assert_eq!(value_to_bool(&SqlValue::Blob(b"True".to_vec())), Ok(true));
    assert_eq!(
        value_to_bool(&SqlValue::Blob(vec![0xff, 0xff, 0xff])),
        Err(ColumnError::ConversionFailure { len: 3, value_type: SqlType::Blob })
    );
}

#[test]
fn text_column_cases() {
    assert_eq!(text_column(0, &text("word")), Ok("word".to_string()));
    assert_eq!(text_column(3, &SqlValue::Text(vec![0xff])), Err(ColumnError::Utf8 { index: 3 }));
    assert_eq!(
        text_column(1, &SqlValue::Null),
        Err(ColumnError::InvalidColumnType { index: 1, value_type: SqlType::Null })
    );
    assert_eq!(
        text_column(0, &SqlValue::Integer(5)),
        Err(ColumnError::InvalidColumnType { index: 0, value_type: SqlType::Integer })
    );
}

#[test]
fn decimal_text_reads_back() {
    for v in [0i64, 9, 10, -1, 123456, -2147483648, 2147483647] {
        assert_eq!(parse_i32(&i64_to_string(v)), Some(v as i32));
    }
}

#[test]
fn valid_text_reads_back_as_itself() {
    assert_eq!(value_to_string(&text("")), Ok(String::new()));
    assert_eq!(value_to_optional_string(&text("")), Ok(Some(String::new())));
    assert_eq!(value_to_string(&text("grüß")), Ok("grüß".to_string()));
}
