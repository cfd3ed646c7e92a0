use wikdict::TranslationList;

#[test]
fn parse_splits_and_trims() {
    let list = TranslationList::parse("foo | bar | baz");
    assert_eq!(list.values, vec!["foo", "bar", "baz"]);
    let list = TranslationList::parse("  foo  |  bar ");
    assert_eq!(list.values, vec!["foo", "bar"]);
}

#[test]
fn parse_drops_empty_entries() {
    assert!(TranslationList::parse("").is_empty());
    assert!(TranslationList::parse("   ").is_empty());
    assert!(TranslationList::parse(" | ").is_empty());
    let list = TranslationList::parse("a |  | b");
    assert_eq!(list.values, vec!["a", "b"]);
}

#[test]
fn parse_only_splits_on_spaced_bar() {
    let list = TranslationList::parse("a|b | c");
    assert_eq!(list.values, vec!["a|b", "c"]);
    let list = TranslationList::parse("a | | b");
    assert_eq!(list.values, vec!["a", "| b"]);
    let list = TranslationList::parse("x |");
    assert_eq!(list.values, vec!["x |"]);
}

#[test]
fn parse_trims_unicode_white_space() {
    let list = TranslationList::parse("\u{3000}тест\u{a0} | \tzwei\n");
    assert_eq!(list.values, vec!["тест", "zwei"]);
}

#[test]
fn parse_keeps_identifiers() {
    let list = TranslationList::parse("wd:Q42 | bar");
    assert_eq!(list.values, vec!["wd:Q42", "bar"]);
}

#[test]
fn parse_undoes_join() {
    let entries = vec!["eins", "zwei drei", "vier"];
    let list = TranslationList::parse(&entries.join(" | "));
    assert_eq!(list.values, entries);
}

#[test]
fn iter_and_is_empty() {
    let list = TranslationList::parse("foo | bar");
    assert!(!list.is_empty());
    assert_eq!(list.iter(), vec!["foo", "bar"]);
    let empty = TranslationList::default();
    assert!(empty.is_empty());
    assert!(empty.iter().is_empty());
}

#[test]
fn parse_of_appended_piece() {
    let a = "  eins ";
    let b = "zwei | | drei";
    let joined = TranslationList::parse(&format!("{a} | {b}")).values;
    let mut expected = TranslationList::parse(a).values;
    expected.extend(TranslationList::parse(b).values);
    assert_eq!(joined, expected);
    assert_eq!(TranslationList::parse(a).values, vec!["eins"]);
}
