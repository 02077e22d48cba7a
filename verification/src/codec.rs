use vstd::prelude::*;

verus! {

/// The `config_path` field of an `Option<String>`, as a mathematical value.
pub open spec fn opt_string_view(p: Option<String>) -> Option<Seq<char>> {
    match p {
        Some(s) => Some(s@),
        None => None,
    }
}

/// A decoding outcome (`None` meaning "not a valid record") as a
/// mathematical value.
pub open spec fn opt_opt_string_view(p: Option<Option<String>>) -> Option<Option<Seq<char>>> {
    match p {
        Some(cp) => Some(opt_string_view(cp)),
        None => None,
    }
}

/// The exact text that the TOML serializer produces for a record whose
/// `config_path` entry holds the given value (no entry when it is absent).
pub uninterp spec fn toml_encoding(config_path: Option<Seq<char>>) -> Seq<char>;

/// What parsing a document as the record yields: `None` when the text is not
/// valid TOML or its `config_path` entry is not a string; otherwise the
/// entry's value, an absent entry giving `Some(None)`.
pub uninterp spec fn toml_decoding(text: Seq<char>) -> Option<Option<Seq<char>>>;

/// Relies on `toml::to_string_pretty` applied to a `toml::Table` holding the
/// record's one optional string entry, and on `toml::from_str` reading the
/// produced document back to the same table: the serializer emits valid TOML
/// whose sole `config_path` entry is the given string.
#[verifier::external_body]
pub(crate) fn encode_record(config_path: &Option<String>) -> (r: String)
    ensures
        r@ == toml_encoding(opt_string_view(*config_path)),
        toml_decoding(r@) == Some(opt_string_view(*config_path)),
{
    let mut table = toml::Table::new();
    if let Some(path) = config_path {
        table.insert("config_path".to_string(), toml::Value::String(path.clone()));
    }
    toml::to_string_pretty(&table).unwrap()
}

/// Relies on `toml::from_str` to parse a document into a `toml::Table` and on
/// `toml::map::Map::get` for the record's one entry; the table's other
/// entries are ignored, as field deserialization ignores unknown keys.
#[verifier::external_body]
pub(crate) fn decode_record(text: &str) -> (r: Option<Option<String>>)
    ensures
        opt_opt_string_view(r) == toml_decoding(text@),
{
    let table: toml::Table = match toml::from_str(text) {
        Ok(table) => table,
        Err(_) => return None,
    };
    match table.get("config_path") {
        None => Some(None),
        Some(toml::Value::String(path)) => Some(Some(path.clone())),
        Some(_) => None,
    }
}

} // verus!
