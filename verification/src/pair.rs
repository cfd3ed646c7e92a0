//! Dictionaries: ordered pairs of two different languages.

use vstd::prelude::*;

use crate::language::Language;
use crate::text::{ascii_upper, ascii_upper_seq};

verus! {

/// The number of dictionaries of the release: every ordered pair of two
/// different languages.
pub const DICTIONARY_COUNT: usize = 650;

/// A WikDict dictionary: the language of its headwords (`from`) and the
/// language of their equivalents (`to`).
#[derive(Debug, Clone, Copy, PartialEq, Eq, Hash, Structural)]
pub struct Dictionary {
    pub from: Language,
    pub to: Language,
}

/// The error text for a dictionary name that names no dictionary.
pub open spec fn unsupported_dictionary_message(value: Seq<char>) -> Seq<char> {
    seq!['u', 'n', 's', 'u', 'p', 'p', 'o', 'r', 't', 'e', 'd', ' ', 'W', 'i', 'k', 'D', 'i', 'c', 't', ' ',
        'd', 'i', 'c', 't', 'i', 'o', 'n', 'a', 'r', 'y', ':', ' '] + value
}

/// The file name suffix of a dictionary database.
pub open spec fn sqlite_suffix() -> Seq<char> {
    seq!['.', 's', 'q', 'l', 'i', 't', 'e', '3']
}

/// The dictionary at a position of `all_dictionaries()`: the source
/// languages in the order of `Language::all()`, and for each of them every
/// other language in that order.
pub open spec fn dictionary_at(k: int) -> Dictionary {
    let i = k / 25;
    let r = k % 25;
    let j = if r < i {
        r
    } else {
        r + 1
    };
    Dictionary { from: Language::at_index(i), to: Language::at_index(j) }
}

/// The position of a dictionary in `all_dictionaries()`.
pub open spec fn dictionary_index(d: Dictionary) -> int {
    let i = d.from.index_of();
    let j = d.to.index_of();
    i * 25 + if j < i {
        j
    } else {
        j - 1
    }
}

impl Dictionary {
    /// A dictionary translates between two different languages.
    pub open spec fn is_valid(self) -> bool {
        self.from != self.to
    }

    /// The name of the dictionary: the two language codes joined by `-`,
    /// such as `en-ru`.
    pub open spec fn code_view(self) -> Seq<char> {
        self.from.code_view() + seq!['-'] + self.to.code_view()
    }

    /// The file name of the dictionary database, such as `en-ru.sqlite3`.
    pub open spec fn file_name_view(self) -> Seq<char> {
        self.code_view() + sqlite_suffix()
    }

    /// What parsing a dictionary name gives: two language codes joined by
    /// `-`, each read as `Language::parse` reads it, naming two different
    /// languages.
    pub open spec fn parse_view(value: Seq<char>) -> Result<Dictionary, Seq<char>> {
        if value.len() == 5 && value[2] == '-' {
            match (
                Language::parse_view(value.subrange(0, 2)),
                Language::parse_view(value.subrange(3, 5)),
            ) {
                (Ok(from), Ok(to)) => if from != to {
                    Ok(Dictionary { from, to })
                } else {
                    Err(unsupported_dictionary_message(value))
                },
                _ => Err(unsupported_dictionary_message(value)),
            }
        } else {
            Err(unsupported_dictionary_message(value))
        }
    }

    /// The dictionary from `from` into `to`, when the two languages differ.
    pub fn new(from: Language, to: Language) -> (d: Option<Dictionary>)
        ensures
            d == (if from != to {
                Some(Dictionary { from, to })
            } else {
                None::<Dictionary>
            }),
    {
        if from != to {
            Some(Dictionary { from, to })
        } else {
            None
        }
    }

    /// The name of the dictionary, such as `en-ru`.
    pub fn code(&self) -> (code: String)
        ensures
            code@ == self.code_view(),
    {
        let mut code = self.from.code().to_owned();
        let dash = "-";
        proof {
            reveal_strlit("-");
        }
        code.append(dash);
        code.append(self.to.code());
        code
    }

    /// The file name of the dictionary database, such as `en-ru.sqlite3`.
    pub fn file_name(&self) -> (name: String)
        ensures
            name@ == self.file_name_view(),
    {
        let mut name = self.code();
        let suffix = ".sqlite3";
        proof {
            reveal_strlit(".sqlite3");
            assert(suffix@ =~= sqlite_suffix());
        }
        name.append(suffix);
        name
    }

    /// Parses a dictionary name such as `en-ru` (language codes in any ASCII
    /// case).
    pub fn parse(value: &str) -> (res: Result<Dictionary, String>)
        ensures
            res matches Ok(d) ==> Dictionary::parse_view(value@) == Ok::<Dictionary, Seq<char>>(d),
            res matches Err(e) ==> Dictionary::parse_view(value@) == Err::<Dictionary, Seq<char>>(
                e@,
            ),
    {
        let n = value.unicode_len();
        if n == 5 && value.get_char(2) == '-' {
            let from = Language::parse(value.substring_char(0, 2));
            let to = Language::parse(value.substring_char(3, 5));
            match (from, to) {
                (Ok(from), Ok(to)) => {
                    if from != to {
                        return Ok(Dictionary { from, to });
                    }
                },
                _ => {},
            }
        }
        let prefix = "unsupported WikDict dictionary: ";
        proof {
            reveal_strlit("unsupported WikDict dictionary: ");
            assert(prefix@ + value@ =~= unsupported_dictionary_message(value@));
        }
        let mut message = prefix.to_owned();
        message.append(value);
        Err(message)
    }
}


proof fn lemma_div_mod_25(i: int, r: int)
    requires
        0 <= i,
        0 <= r < 25,
    ensures
        (i * 25 + r) / 25 == i,
        (i * 25 + r) % 25 == r,
{
    vstd::arithmetic::div_mod::lemma_fundamental_div_mod_converse(i * 25 + r, 25, i, r);
}

/// Every dictionary of the release, in the order of `dictionary_at`.
pub fn all_dictionaries() -> (all: Vec<Dictionary>)
    ensures
        all@.len() == DICTIONARY_COUNT,
        forall|k: int| 0 <= k < DICTIONARY_COUNT ==> #[trigger] all@[k] == dictionary_at(k),
{
    let languages = Language::all();
    let mut all: Vec<Dictionary> = Vec::new();
    for i in 0..26usize
        invariant
            forall|x: int| 0 <= x < 26 ==> #[trigger] languages@[x] == Language::at_index(x),
            all@.len() == i * 25,
            forall|k: int| 0 <= k < all@.len() ==> #[trigger] all@[k] == dictionary_at(k),
    {
        for j in 0..26usize
            invariant
                0 <= i < 26,
                forall|x: int| 0 <= x < 26 ==> #[trigger] languages@[x] == Language::at_index(x),
                all@.len() == i * 25 + (if j <= i {
                    j as int
                } else {
                    j - 1
                }),
                forall|k: int| 0 <= k < all@.len() ==> #[trigger] all@[k] == dictionary_at(k),
        {
            if i != j {
                let ghost k = all@.len() as int;
                let d = Dictionary { from: languages[i], to: languages[j] };
                proof {
                    lemma_div_mod_25(i as int, if j < i {
                        j as int
                    } else {
                        j - 1
                    });
                }
                all.push(d);
            }
        }
    }
    all
}

/// The list of all dictionaries holds exactly the dictionaries between two
/// different languages, each once: every position holds a valid dictionary
/// whose position it is, and every valid dictionary stands at its position.
pub proof fn lemma_all_dictionaries_complete(d: Dictionary, k: int)
    ensures
        0 <= k < DICTIONARY_COUNT ==> dictionary_at(k).is_valid() && dictionary_index(
            dictionary_at(k),
        ) == k,
        d.is_valid() ==> 0 <= dictionary_index(d) < DICTIONARY_COUNT && dictionary_at(
            dictionary_index(d),
        ) == d,
{
    if 0 <= k < DICTIONARY_COUNT {
        let i = k / 25;
        let r = k % 25;
        assert(0 <= i < 26 && 0 <= r < 25 && k == i * 25 + r) by (nonlinear_arith)
            requires
                0 <= k < 650,
                i == k / 25,
                r == k % 25,
        ;
        Language::lemma_all_lists_each_language_once(Language::at_index(i), i);
        let j = if r < i {
            r
        } else {
            r + 1
        };
        Language::lemma_all_lists_each_language_once(Language::at_index(j), j);
    }
    if d.is_valid() {
        let i = d.from.index_of();
        let j = d.to.index_of();
        Language::lemma_all_lists_each_language_once(d.from, 0);
        Language::lemma_all_lists_each_language_once(d.to, 0);
        Language::lemma_code_injective(d.from, d.to);
        assert(i != j);
        let k = dictionary_index(d);
        let r = if j < i {
            j
        } else {
            j - 1
        };
        lemma_div_mod_25(i, r);
    }
}

/// Parsing the name of a valid dictionary gives that dictionary back.
pub proof fn lemma_parse_code(d: Dictionary)
    requires
        d.is_valid(),
    ensures
        Dictionary::parse_view(d.code_view()) == Ok::<Dictionary, Seq<char>>(d),
{
    let v = d.code_view();
    assert(v.subrange(0, 2) =~= d.from.code_view());
    assert(v.subrange(3, 5) =~= d.to.code_view());
    Language::lemma_parse_code(d.from);
    Language::lemma_parse_code(d.to);
}


/// Parsing the upper-case name of a valid dictionary gives that dictionary.
pub proof fn lemma_parse_upper_code(d: Dictionary)
    requires
        d.is_valid(),
    ensures
        Dictionary::parse_view(ascii_upper_seq(d.code_view())) == Ok::<Dictionary, Seq<char>>(d),
{
    let v = ascii_upper_seq(d.code_view());
    assert(v.subrange(0, 2) =~= ascii_upper_seq(d.from.code_view()));
    assert(v.subrange(3, 5) =~= ascii_upper_seq(d.to.code_view()));
    assert(v[2] == ascii_upper('-'));
    Language::lemma_parse_upper_code(d.from);
    Language::lemma_parse_upper_code(d.to);
}

impl std::str::FromStr for Dictionary {
    type Err = String;

    fn from_str(value: &str) -> (res: Result<Self, Self::Err>)
        ensures
            res matches Ok(d) ==> Dictionary::parse_view(value@) == Ok::<Dictionary, Seq<char>>(d),
            res matches Err(e) ==> Dictionary::parse_view(value@) == Err::<Dictionary, Seq<char>>(
                e@,
            ),
    {
        Dictionary::parse(value)
    }
}

} // verus!
