use vstd::prelude::*;

use crate::text::{
    ascii_lower_seq, ascii_upper_seq, chars_of, lemma_ascii_lower_upper, lower_char,
};

verus! {

/// The languages of the WikDict release that this library knows.
#[derive(Debug, Clone, Copy, PartialEq, Eq, Hash, Structural)]
pub enum Language {
    Bg,
    Ca,
    Cs,
    Da,
    De,
    El,
    En,
    Es,
    Fi,
    Fr,
    Ga,
    Id,
    It,
    Ja,
    Ku,
    La,
    Lt,
    Mg,
    Nl,
    No,
    Pl,
    Pt,
    Ru,
    Sv,
    Tr,
    Zh,
}


/// The text of the error that names an unknown language code.
pub open spec fn unsupported_language_message(value: Seq<char>) -> Seq<char> {
    unsupported_language_prefix() + value
}

pub open spec fn unsupported_language_prefix() -> Seq<char> {
    seq!['u', 'n', 's', 'u', 'p', 'p', 'o', 'r', 't', 'e', 'd', ' ', 'W', 'i', 'k', 'D', 'i', 'c', 't', ' ',
        'l', 'a', 'n', 'g', 'u', 'a', 'g', 'e', ':', ' ']
}

impl Language {
    /// The two-letter code of the language, as WikDict writes it.
    pub open spec fn code_view(self) -> Seq<char> {
        match self {
            Language::Bg => seq!['b', 'g'],
            Language::Ca => seq!['c', 'a'],
            Language::Cs => seq!['c', 's'],
            Language::Da => seq!['d', 'a'],
            Language::De => seq!['d', 'e'],
            Language::El => seq!['e', 'l'],
            Language::En => seq!['e', 'n'],
            Language::Es => seq!['e', 's'],
            Language::Fi => seq!['f', 'i'],
            Language::Fr => seq!['f', 'r'],
            Language::Ga => seq!['g', 'a'],
            Language::Id => seq!['i', 'd'],
            Language::It => seq!['i', 't'],
            Language::Ja => seq!['j', 'a'],
            Language::Ku => seq!['k', 'u'],
            Language::La => seq!['l', 'a'],
            Language::Lt => seq!['l', 't'],
            Language::Mg => seq!['m', 'g'],
            Language::Nl => seq!['n', 'l'],
            Language::No => seq!['n', 'o'],
            Language::Pl => seq!['p', 'l'],
            Language::Pt => seq!['p', 't'],
            Language::Ru => seq!['r', 'u'],
            Language::Sv => seq!['s', 'v'],
            Language::Tr => seq!['t', 'r'],
            Language::Zh => seq!['z', 'h'],
        }
    }

    /// The position of the language in `Language::all()`.
    pub open spec fn index_of(self) -> int {
        match self {
            Language::Bg => 0,
            Language::Ca => 1,
            Language::Cs => 2,
            Language::Da => 3,
            Language::De => 4,
            Language::El => 5,
            Language::En => 6,
            Language::Es => 7,
            Language::Fi => 8,
            Language::Fr => 9,
            Language::Ga => 10,
            Language::Id => 11,
            Language::It => 12,
            Language::Ja => 13,
            Language::Ku => 14,
            Language::La => 15,
            Language::Lt => 16,
            Language::Mg => 17,
            Language::Nl => 18,
            Language::No => 19,
            Language::Pl => 20,
            Language::Pt => 21,
            Language::Ru => 22,
            Language::Sv => 23,
            Language::Tr => 24,
            Language::Zh => 25,
        }
    }

    /// The language at a position of `Language::all()`.
    pub open spec fn at_index(i: int) -> Language {
        if i == 0 {
            Language::Bg
        } else if i == 1 {
            Language::Ca
        } else if i == 2 {
            Language::Cs
        } else if i == 3 {
            Language::Da
        } else if i == 4 {
            Language::De
        } else if i == 5 {
            Language::El
        } else if i == 6 {
            Language::En
        } else if i == 7 {
            Language::Es
        } else if i == 8 {
            Language::Fi
        } else if i == 9 {
            Language::Fr
        } else if i == 10 {
            Language::Ga
        } else if i == 11 {
            Language::Id
        } else if i == 12 {
            Language::It
        } else if i == 13 {
            Language::Ja
        } else if i == 14 {
            Language::Ku
        } else if i == 15 {
            Language::La
        } else if i == 16 {
            Language::Lt
        } else if i == 17 {
            Language::Mg
        } else if i == 18 {
            Language::Nl
        } else if i == 19 {
            Language::No
        } else if i == 20 {
            Language::Pl
        } else if i == 21 {
            Language::Pt
        } else if i == 22 {
            Language::Ru
        } else if i == 23 {
            Language::Sv
        } else if i == 24 {
            Language::Tr
        } else {
            Language::Zh
        }
    }

    /// The language whose code is `code`, if there is one.
    pub open spec fn from_code_view(code: Seq<char>) -> Option<Language> {
        if code == seq!['b', 'g'] {
            Some(Language::Bg)
        } else if code == seq!['c', 'a'] {
            Some(Language::Ca)
        } else if code == seq!['c', 's'] {
            Some(Language::Cs)
        } else if code == seq!['d', 'a'] {
            Some(Language::Da)
        } else if code == seq!['d', 'e'] {
            Some(Language::De)
        } else if code == seq!['e', 'l'] {
            Some(Language::El)
        } else if code == seq!['e', 'n'] {
            Some(Language::En)
        } else if code == seq!['e', 's'] {
            Some(Language::Es)
        } else if code == seq!['f', 'i'] {
            Some(Language::Fi)
        } else if code == seq!['f', 'r'] {
            Some(Language::Fr)
        } else if code == seq!['g', 'a'] {
            Some(Language::Ga)
        } else if code == seq!['i', 'd'] {
            Some(Language::Id)
        } else if code == seq!['i', 't'] {
            Some(Language::It)
        } else if code == seq!['j', 'a'] {
            Some(Language::Ja)
        } else if code == seq!['k', 'u'] {
            Some(Language::Ku)
        } else if code == seq!['l', 'a'] {
            Some(Language::La)
        } else if code == seq!['l', 't'] {
            Some(Language::Lt)
        } else if code == seq!['m', 'g'] {
            Some(Language::Mg)
        } else if code == seq!['n', 'l'] {
            Some(Language::Nl)
        } else if code == seq!['n', 'o'] {
            Some(Language::No)
        } else if code == seq!['p', 'l'] {
            Some(Language::Pl)
        } else if code == seq!['p', 't'] {
            Some(Language::Pt)
        } else if code == seq!['r', 'u'] {
            Some(Language::Ru)
        } else if code == seq!['s', 'v'] {
            Some(Language::Sv)
        } else if code == seq!['t', 'r'] {
            Some(Language::Tr)
        } else if code == seq!['z', 'h'] {
            Some(Language::Zh)
        } else {
            None
        }
    }

    /// Returns the two-letter code of the language.
    pub fn code(self) -> (code: &'static str)
        ensures
            code@ == self.code_view(),
    {
        match self {
            Language::Bg => {
                proof {
                    reveal_strlit("bg");
                }
                "bg"
            },
            Language::Ca => {
                proof {
                    reveal_strlit("ca");
                }
                "ca"
            },
            Language::Cs => {
                proof {
                    reveal_strlit("cs");
                }
                "cs"
            },
            Language::Da => {
                proof {
                    reveal_strlit("da");
                }
                "da"
            },
            Language::De => {
                proof {
                    reveal_strlit("de");
                }
                "de"
            },
            Language::El => {
                proof {
                    reveal_strlit("el");
                }
                "el"
            },
            Language::En => {
                proof {
                    reveal_strlit("en");
                }
                "en"
            },
            Language::Es => {
                proof {
                    reveal_strlit("es");
                }
                "es"
            },
            Language::Fi => {
                proof {
                    reveal_strlit("fi");
                }
                "fi"
            },
            Language::Fr => {
                proof {
                    reveal_strlit("fr");
                }
                "fr"
            },
            Language::Ga => {
                proof {
                    reveal_strlit("ga");
                }
                "ga"
            },
            Language::Id => {
                proof {
                    reveal_strlit("id");
                }
                "id"
            },
            Language::It => {
                proof {
                    reveal_strlit("it");
                }
                "it"
            },
            Language::Ja => {
                proof {
                    reveal_strlit("ja");
                }
                "ja"
            },
            Language::Ku => {
                proof {
                    reveal_strlit("ku");
                }
                "ku"
            },
            Language::La => {
                proof {
                    reveal_strlit("la");
                }
                "la"
            },
            Language::Lt => {
                proof {
                    reveal_strlit("lt");
                }
                "lt"
            },
            Language::Mg => {
                proof {
                    reveal_strlit("mg");
                }
                "mg"
            },
            Language::Nl => {
                proof {
                    reveal_strlit("nl");
                }
                "nl"
            },
            Language::No => {
                proof {
                    reveal_strlit("no");
                }
                "no"
            },
            Language::Pl => {
                proof {
                    reveal_strlit("pl");
                }
                "pl"
            },
            Language::Pt => {
                proof {
                    reveal_strlit("pt");
                }
                "pt"
            },
            Language::Ru => {
                proof {
                    reveal_strlit("ru");
                }
                "ru"
            },
            Language::Sv => {
                proof {
                    reveal_strlit("sv");
                }
                "sv"
            },
            Language::Tr => {
                proof {
                    reveal_strlit("tr");
                }
                "tr"
            },
            Language::Zh => {
                proof {
                    reveal_strlit("zh");
                }
                "zh"
            },
        }
    }

    /// Every language of the release, in the order of the release's list.
    pub fn all() -> (all: [Language; 26])
        ensures
            forall|i: int| 0 <= i < 26 ==> #[trigger] all@[i] == Language::at_index(i),
    {
        [
            Language::Bg,
            Language::Ca,
            Language::Cs,
            Language::Da,
            Language::De,
            Language::El,
            Language::En,
            Language::Es,
            Language::Fi,
            Language::Fr,
            Language::Ga,
            Language::Id,
            Language::It,
            Language::Ja,
            Language::Ku,
            Language::La,
            Language::Lt,
            Language::Mg,
            Language::Nl,
            Language::No,
            Language::Pl,
            Language::Pt,
            Language::Ru,
            Language::Sv,
            Language::Tr,
            Language::Zh,
        ]
    }

    /// Looks a language up by its two lower-case letters.
    fn from_lower_pair(a: char, b: char) -> (res: Option<Language>)
        ensures
            res == Language::from_code_view(seq![a, b]),
    {
        if a == 'b' && b == 'g' {
            Some(Language::Bg)
        } else if a == 'c' && b == 'a' {
            Some(Language::Ca)
        } else if a == 'c' && b == 's' {
            Some(Language::Cs)
        } else if a == 'd' && b == 'a' {
            Some(Language::Da)
        } else if a == 'd' && b == 'e' {
            Some(Language::De)
        } else if a == 'e' && b == 'l' {
            Some(Language::El)
        } else if a == 'e' && b == 'n' {
            Some(Language::En)
        } else if a == 'e' && b == 's' {
            Some(Language::Es)
        } else if a == 'f' && b == 'i' {
            Some(Language::Fi)
        } else if a == 'f' && b == 'r' {
            Some(Language::Fr)
        } else if a == 'g' && b == 'a' {
            Some(Language::Ga)
        } else if a == 'i' && b == 'd' {
            Some(Language::Id)
        } else if a == 'i' && b == 't' {
            Some(Language::It)
        } else if a == 'j' && b == 'a' {
            Some(Language::Ja)
        } else if a == 'k' && b == 'u' {
            Some(Language::Ku)
        } else if a == 'l' && b == 'a' {
            Some(Language::La)
        } else if a == 'l' && b == 't' {
            Some(Language::Lt)
        } else if a == 'm' && b == 'g' {
            Some(Language::Mg)
        } else if a == 'n' && b == 'l' {
            Some(Language::Nl)
        } else if a == 'n' && b == 'o' {
            Some(Language::No)
        } else if a == 'p' && b == 'l' {
            Some(Language::Pl)
        } else if a == 'p' && b == 't' {
            Some(Language::Pt)
        } else if a == 'r' && b == 'u' {
            Some(Language::Ru)
        } else if a == 's' && b == 'v' {
            Some(Language::Sv)
        } else if a == 't' && b == 'r' {
            Some(Language::Tr)
        } else if a == 'z' && b == 'h' {
            Some(Language::Zh)
        } else {
            proof {
                assert forall|x: char, y: char| seq![a, b] == seq![x, y] implies x == a && y == b by {
                    assert(seq![a, b][0] == seq![x, y][0]);
                    assert(seq![a, b][1] == seq![x, y][1]);
                }
            }
            None
        }
    }

    /// What parsing a language code gives: the language whose code is the
    /// ASCII-lowercased text, or the error message that names the text.
    pub open spec fn parse_view(value: Seq<char>) -> Result<Language, Seq<char>> {
        match Language::from_code_view(ascii_lower_seq(value)) {
            Some(l) => Ok(l),
            None => Err(unsupported_language_message(value)),
        }
    }

    /// Parses a language code, ignoring ASCII case: `"en"`, `"EN"` and `"En"`
    /// all give `Language::En`. Any other text is refused with the message
    /// `unsupported WikDict language: <value>`.
    pub fn parse(value: &str) -> (res: Result<Language, String>)
        ensures
            res matches Ok(l) ==> Language::parse_view(value@) == Ok::<Language, Seq<char>>(l),
            res matches Err(e) ==> Language::parse_view(value@) == Err::<Language, Seq<char>>(e@),
    {
        let chars = chars_of(value);
        let found = if chars.len() == 2 {
            let a = lower_char(chars[0]);
            let b = lower_char(chars[1]);
            assert(ascii_lower_seq(value@) =~= seq![a, b]);
            Language::from_lower_pair(a, b)
        } else {
            proof {
                Language::lemma_codes_have_two_letters(ascii_lower_seq(value@));
            }
            None
        };
        assert(found == Language::from_code_view(ascii_lower_seq(value@)));
        match found {
            Some(l) => {
                assert(Language::parse_view(value@) == Ok::<Language, Seq<char>>(l));
                Ok(l)
            },
            None => {
                let prefix = "unsupported WikDict language: ";
                proof {
                    reveal_strlit("unsupported WikDict language: ");
                    assert(prefix@ =~= unsupported_language_prefix());
                }
                let mut message = prefix.to_owned();
                message.append(value);
                Err(message)
            },
        }
    }

    /// Only two-character texts name a language.
    pub proof fn lemma_codes_have_two_letters(code: Seq<char>)
        ensures
            Language::from_code_view(code) is Some ==> code.len() == 2,
    {
    }

    /// Every language code is written in lower case, so lowercasing it
    /// leaves it as it is.
    pub proof fn lemma_code_is_lowercase(l: Language)
        ensures
            ascii_lower_seq(l.code_view()) == l.code_view(),
    {
        assert(ascii_lower_seq(l.code_view()) =~= l.code_view());
    }

    /// Parsing the code of a language gives that language back.
    pub proof fn lemma_parse_code(l: Language)
        ensures
            Language::parse_view(l.code_view()) == Ok::<Language, Seq<char>>(l),
    {
        Language::lemma_code_is_lowercase(l);
    }

    /// No two languages share a code.
    pub proof fn lemma_code_injective(l1: Language, l2: Language)
        ensures
            l1.code_view() == l2.code_view() ==> l1 == l2,
    {
        Language::lemma_parse_code(l1);
        Language::lemma_parse_code(l2);
    }

    /// Parsing ignores ASCII case: two texts that are equal once lowercased
    /// name the same language, or are both refused.
    pub proof fn lemma_parse_ignores_ascii_case(a: Seq<char>, b: Seq<char>)
        requires
            ascii_lower_seq(a) == ascii_lower_seq(b),
        ensures
            Language::parse_view(a) is Ok <==> Language::parse_view(b) is Ok,
            Language::parse_view(a) is Ok ==> Language::parse_view(a) == Language::parse_view(b),
    {
    }

    /// `Language::all()` lists every language exactly once: each language
    /// stands at its own position, and each position holds the language
    /// whose position it is.
    pub proof fn lemma_all_lists_each_language_once(l: Language, i: int)
        ensures
            0 <= l.index_of() < 26,
            Language::at_index(l.index_of()) == l,
            0 <= i < 26 ==> Language::at_index(i).index_of() == i,
    {
    }

    /// Parsing the upper-case code of a language gives that language.
    pub proof fn lemma_parse_upper_code(l: Language)
        ensures
            Language::parse_view(ascii_upper_seq(l.code_view())) == Ok::<Language, Seq<char>>(l),
    {
        let c = l.code_view();
        lemma_ascii_lower_upper(c[0]);
        lemma_ascii_lower_upper(c[1]);
        assert(ascii_lower_seq(ascii_upper_seq(c)) =~= c);
        Language::lemma_code_is_lowercase(l);
    }
}

impl std::str::FromStr for Language {
    type Err = String;

    fn from_str(value: &str) -> (res: Result<Self, Self::Err>)
        ensures
            res matches Ok(l) ==> Language::parse_view(value@) == Ok::<Language, Seq<char>>(l),
            res matches Err(e) ==> Language::parse_view(value@) == Err::<Language, Seq<char>>(e@),
    {
        Language::parse(value)
    }
}

} // verus!
