use std::str::FromStr;
use wikdict::Language;

#[test]
fn language_codes() {
    assert_eq!(Language::Bg.code(), "bg");
    assert_eq!(Language::En.code(), "en");
    assert_eq!(Language::Zh.code(), "zh");
    assert_eq!(Language::No.code(), "no");
}

#[test]
fn language_parse_ignores_ascii_case() {
    assert_eq!(Language::parse("en"), Ok(Language::En));
    assert_eq!(Language::parse("EN"), Ok(Language::En));
    assert_eq!(Language::parse("rU"), Ok(Language::Ru));
    assert_eq!(Language::from_str("De"), Ok(Language::De));
}

#[test]
fn language_parse_rejects_unknown() {
    assert_eq!(
        Language::parse("xx"),
        Err("unsupported WikDict language: xx".to_string())
    );
    assert_eq!(
        Language::parse(" en"),
        Err("unsupported WikDict language:  en".to_string())
    );
    assert_eq!(
        Language::parse(""),
        Err("unsupported WikDict language: ".to_string())
    );
    assert_eq!(
        Language::parse("eng"),
        Err("unsupported WikDict language: eng".to_string())
    );
}

#[test]
fn language_all_round_trips() {
    let all = Language::all();
    assert_eq!(all.len(), 26);
    for (i, l) in all.iter().enumerate() {
        assert_eq!(Language::parse(l.code()), Ok(*l));
        for m in &all[i + 1..] {
            assert_ne!(l.code(), m.code());
        }
    }
    let codes: Vec<&str> = all.iter().map(|l| l.code()).collect();
    assert_eq!(
        codes.join(" "),
        "bg ca cs da de el en es fi fr ga id it ja ku la lt mg nl no pl pt ru sv tr zh"
    );
}
