//! Reading WikDict dictionaries: languages, dictionary pairs, download
//! addresses and the decoding of the values stored in a WikDict database.

mod downloader;
mod language;
mod number;
mod pair;
mod record;
mod text;
mod translation_list;
mod value;

pub use downloader::{
    download_step, partial_extension, DownloadAction, DownloadEvent, DownloadProgress,
    DownloadState, HttpClient, WikDictDownloader, WikDictVersion, NOT_FOUND,
    USER_AGENT,
};
pub use language::Language;
pub use number::{i64_to_string, parse_i32};
pub use pair::{all_dictionaries, Dictionary, DICTIONARY_COUNT};
pub use record::{
    decode_simple_translation, decode_translation, decode_translation_grouped, prefix_pattern,
    SimpleTranslationText, TranslationGroupedText, TranslationText, LOOKUP_GROUPED_SQL,
    LOOKUP_SIMPLE_SQL, LOOKUP_TRANSLATIONS_SQL, SEARCH_SIMPLE_SQL, RowError,
};
pub use translation_list::TranslationList;
pub use value::{
    text_column, value_to_bool, value_to_optional_i32, value_to_optional_string, value_to_string,
    ColumnError, RealValue, SqlType, SqlValue,
};

use vstd::prelude::*;

verus! {

/// The WikDict release that the downloader uses unless told otherwise.
pub const DEFAULT_VERSION: &'static str = "2_2026-06";

/// Where the SQLite dictionaries of every release are published.
pub const DOWNLOAD_BASE_URL: &'static str = "https://download.wikdict.com/dictionaries/sqlite";

/// The address of a dictionary database in a release:
/// `<DOWNLOAD_BASE_URL>/<version>/<file name>`.
pub open spec fn dictionary_url_view(version: Seq<char>, dictionary: Dictionary) -> Seq<char> {
    DOWNLOAD_BASE_URL@ + seq!['/'] + version + seq!['/'] + dictionary.file_name_view()
}

/// Returns the download address of `dictionary` in the release `version`.
pub fn dictionary_url(version: &str, dictionary: Dictionary) -> (url: String)
    ensures
        url@ == dictionary_url_view(version@, dictionary),
{
    let slash = "/";
    proof {
        reveal_strlit("/");
    }
    let mut url = DOWNLOAD_BASE_URL.to_owned();
    url.append(slash);
    url.append(version);
    url.append(slash);
    let name = dictionary.file_name();
    url.append(name.as_str());
    url
}

} // verus!
