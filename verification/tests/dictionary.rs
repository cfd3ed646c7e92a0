use std::str::FromStr;
use wikdict::{all_dictionaries, dictionary_url, Dictionary, Language, DICTIONARY_COUNT};

#[test]
fn dictionary_names() {
    let d = Dictionary::new(Language::En, Language::Ru).unwrap();
    assert_eq!(d.code(), "en-ru");
    assert_eq!(d.file_name(), "en-ru.sqlite3");
    assert!(Dictionary::new(Language::En, Language::En).is_none());
}

#[test]
fn dictionary_parse() {
    let d = Dictionary::parse("en-ru").unwrap();
    assert_eq!(d.from, Language::En);
    assert_eq!(d.to, Language::Ru);
    assert_eq!(Dictionary::parse("DE-fr").unwrap().code(), "de-fr");
    assert_eq!(
        Dictionary::parse("en-en"),
        Err("unsupported WikDict dictionary: en-en".to_string())
    );
    assert_eq!(
        Dictionary::parse("en_ru"),
        Err("unsupported WikDict dictionary: en_ru".to_string())
    );
    assert!(Dictionary::parse("en-xx").is_err());
    assert!(Dictionary::parse("").is_err());
}

#[test]
fn all_dictionaries_has_every_pair_once() {
    let all = all_dictionaries();
    assert_eq!(all.len(), 650);
    assert_eq!(DICTIONARY_COUNT, 650);
    assert_eq!(all[0].code(), "bg-ca");
    assert_eq!(all[649].code(), "zh-tr");
    for (i, d) in all.iter().enumerate() {
        assert_ne!(d.from, d.to);
        for e in &all[i + 1..] {
            assert_ne!(d, e);
        }
    }
}

#[test]
fn url_of_dictionary() {
    let d = Dictionary::new(Language::En, Language::Ru).unwrap();
    assert_eq!(
        dictionary_url("2_2026-06", d),
        "https://download.wikdict.com/dictionaries/sqlite/2_2026-06/en-ru.sqlite3"
    );
}

#[test]
fn dictionary_from_str() {
    let d = Dictionary::from_str("en-ru").unwrap();
    assert_eq!(d, Dictionary::new(Language::En, Language::Ru).unwrap());
    assert!(Dictionary::from_str("ru-ru").is_err());
}
