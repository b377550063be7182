//! The configuration document as the toml crate parses it, seen through a
//! plain model: a map from each key of a table to what the schema reads of its
//! value.
use vstd::prelude::*;

verus! {

#[verifier::external_type_specification]
#[verifier::external_body]
#[verifier::reject_recursive_types(K)]
#[verifier::reject_recursive_types(V)]
pub struct ExTomlMap<K, V>(toml::map::Map<K, V>);

#[verifier::external_type_specification]
#[verifier::external_body]
pub struct ExTomlValue(toml::Value);

#[verifier::external_type_specification]
#[verifier::external_body]
pub struct ExTomlError(toml::de::Error);

/// What the schema reads of one value of a table.
#[derive(Clone, Copy, Debug, PartialEq, Eq, Structural)]
pub enum Entry {
    /// A floating-point number, as the bit pattern of its 64-bit IEEE-754 form.
    Float(u64),
    /// An integer.
    Integer(i64),
    /// A table, with the number of keys it holds.
    Table(usize),
    /// A value of any other kind: string, boolean, date-time or array.
    Other,
}

/// The entries of a table, by key.
pub uninterp spec fn table_entries(t: toml::Table) -> Map<Seq<char>, Entry>;

/// The entries of the root table of a document, or `None` where the text is not
/// a valid document.
pub uninterp spec fn document_entries(text: Seq<char>) -> Option<Map<Seq<char>, Entry>>;

/// Relies on `toml::from_str` into a `toml::Table`: it parses the text as one
/// document, and fails exactly where the text is not a valid document.
#[verifier::external_body]
pub(crate) fn parse_table(text: &str) -> (r: Result<toml::Table, toml::de::Error>)
    ensures
        match r {
            Ok(t) => document_entries(text@) == Some(table_entries(t)),
            Err(_) => document_entries(text@) is None,
        },
{
    toml::from_str::<toml::Table>(text)
}

/// The number of keys of a table model, where it holds finitely many.
pub open spec fn key_count(m: Map<Seq<char>, Entry>) -> Option<nat> {
    if m.dom().finite() {
        Some(m.len())
    } else {
        None
    }
}

/// Relies on `toml::map::Map::len`: the number of keys of the table, which
/// holds finitely many.
#[verifier::external_body]
pub(crate) fn table_len(t: &toml::Table) -> (r: usize)
    ensures
        key_count(table_entries(*t)) == Some(r as nat),
{
    t.len()
}

/// Relies on `toml::map::Map::get`: the value under `key`, if the table holds
/// the key. A float is handed out as its bit pattern, a table as its size.
#[verifier::external_body]
pub(crate) fn table_entry(t: &toml::Table, key: &str) -> (r: Option<Entry>)
    ensures
        r == (if table_entries(*t).contains_key(key@) {
            Some(table_entries(*t)[key@])
        } else {
            None
        }),
{
    match t.get(key) {
        Some(toml::Value::Float(x)) => Some(Entry::Float(x.to_bits())),
        Some(toml::Value::Integer(i)) => Some(Entry::Integer(*i)),
        Some(toml::Value::Table(s)) => Some(Entry::Table(s.len())),
        Some(_) => Some(Entry::Other),
        None => None,
    }
}

} // verus!
