# wikdict

A Verus-verified library for WikDict SQLite dictionaries.

- `src/` is the verified library: the languages and dictionary pairs of the
  `2_2026-06` release (`language.rs`, `pair.rs`), download addresses and the
  download state machine (`lib.rs`, `downloader.rs`), the parsing of
  aggregated list values such as `foo | bar | baz` (`translation_list.rs`),
  the conversion of column values (`value.rs`, `number.rs`, `text.rs`) and
  the decoding of table rows (`record.rs`). Each public function carries a
  contract; the laws that relate several functions are public proof
  functions next to them.
- `app/` holds what Verus does not check: opening and querying the SQLite
  files with rusqlite, the HTTP download with reqwest and tokio, the score
  columns (which are floating point), and the serde and `Display` impls.
- `tests/` runs the library on concrete values.
