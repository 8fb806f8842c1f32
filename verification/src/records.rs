//! Property-list dictionaries: what this library reads of them and the calls
//! that read and fill them.
use vstd::prelude::*;

verus! {

/// What a property-list value holds, as far as this library reads it.
pub enum Node {
    /// A dictionary, by its entries.
    Dict(Map<Seq<char>, Node>),
    /// An integer.
    Int(int),
    /// A string.
    Text(Seq<char>),
    /// Binary data.
    Data(Seq<u8>),
    /// Any other kind of value.
    Other,
}

/// `plist::Dictionary`, carried as an opaque value; `dict_entries` names
/// what it holds.
#[verifier::external_type_specification]
#[verifier::external_body]
pub struct ExDictionary(plist::Dictionary);

/// `plist::Error`, of which nothing is read.
#[verifier::external_type_specification]
#[verifier::external_body]
pub struct ExPlistError(plist::Error);

/// The entries of a property-list dictionary.
pub uninterp spec fn dict_entries(d: plist::Dictionary) -> Map<Seq<char>, Node>;

/// The entries of the dictionary that a property-list document encodes, or
/// nothing where the bytes are no such document.
pub uninterp spec fn plist_document(bytes: Seq<u8>) -> Option<Map<Seq<char>, Node>>;

/// Calls `plist::from_bytes` for a `plist::Dictionary`. The outcome depends on
/// the bytes alone: a dictionary with the entries that the document encodes,
/// or the parser's error.
#[verifier::external_body]
pub(crate) fn read_document(bytes: &[u8]) -> (r: Result<plist::Dictionary, plist::Error>)
    ensures
        match r {
            Ok(d) => plist_document(bytes@) == Some(dict_entries(d)),
            Err(_) => plist_document(bytes@) is None,
        },
{
    plist::from_bytes(bytes)
}

/// Calls `plist::Dictionary::new`, which makes a dictionary without entries.
#[verifier::external_body]
pub(crate) fn new_record() -> (d: plist::Dictionary)
    ensures
        dict_entries(d) == no_entries(),
{
    plist::Dictionary::new()
}

/// Calls `plist::Dictionary::insert` with an integer value: the key then
/// holds that integer, and every other entry stays.
#[verifier::external_body]
pub(crate) fn put_integer(d: &mut plist::Dictionary, key: &str, value: u16)
    ensures
        dict_entries(*final(d)) == dict_entries(*old(d)).insert(key@, Node::Int(value as int)),
{
    d.insert(key.to_owned(), plist::Value::Integer(value.into()));
}

/// Calls `plist::Dictionary::insert` with a string value: the key then holds
/// that string, and every other entry stays.
#[verifier::external_body]
pub(crate) fn put_text(d: &mut plist::Dictionary, key: &str, value: String)
    ensures
        dict_entries(*final(d)) == dict_entries(*old(d)).insert(key@, Node::Text(value@)),
{
    d.insert(key.to_owned(), plist::Value::String(value));
}

/// Calls `plist::Dictionary::get` and hands out a copy of the value where it
/// is a dictionary.
#[verifier::external_body]
pub(crate) fn get_record(d: &plist::Dictionary, key: &str) -> (r: Option<plist::Dictionary>)
    ensures
        match r {
            Some(inner) => dict_entries(*d).contains_key(key@) && dict_entries(*d)[key@]
                == Node::Dict(dict_entries(inner)),
            None => !(dict_entries(*d).contains_key(key@) && dict_entries(*d)[key@] is Dict),
        },
{
    match d.get(key) {
        Some(plist::Value::Dictionary(inner)) => Some(inner.clone()),
        _ => None,
    }
}

/// Calls `plist::Dictionary::get` and `plist::Value::as_signed_integer`: the
/// integer under the key, where there is one and it fits 64 signed bits.
#[verifier::external_body]
pub(crate) fn get_signed(d: &plist::Dictionary, key: &str) -> (r: Option<i64>)
    ensures
        r == signed_at(dict_entries(*d), key@),
{
    match d.get(key) {
        Some(v) => v.as_signed_integer(),
        None => None,
    }
}

/// Calls `plist::Dictionary::get` and hands out a copy of the value where it
/// is a string.
#[verifier::external_body]
pub(crate) fn get_text(d: &plist::Dictionary, key: &str) -> (r: Option<String>)
    ensures
        match r {
            Some(s) => text_at(dict_entries(*d), key@) == Some(s@),
            None => text_at(dict_entries(*d), key@) is None,
        },
{
    match d.get(key) {
        Some(plist::Value::String(s)) => Some(s.clone()),
        _ => None,
    }
}

/// The dictionary without entries.
pub open spec fn no_entries() -> Map<Seq<char>, Node> {
    Map::empty()
}

/// Calls `plist::Dictionary::get` and hands out a copy of the value where it
/// is binary data.
#[verifier::external_body]
pub(crate) fn get_data(d: &plist::Dictionary, key: &str) -> (r: Option<Vec<u8>>)
    ensures
        match r {
            Some(bytes) => data_at(dict_entries(*d), key@) == Some(bytes@),
            None => data_at(dict_entries(*d), key@) is None,
        },
{
    match d.get(key) {
        Some(plist::Value::Data(bytes)) => Some(bytes.clone()),
        _ => None,
    }
}

/// The bytes under `key`, where the entry is binary data.
pub open spec fn data_at(m: Map<Seq<char>, Node>, key: Seq<char>) -> Option<Seq<u8>> {
    if m.contains_key(key) {
        match m[key] {
            Node::Data(bytes) => Some(bytes),
            _ => None,
        }
    } else {
        None
    }
}

/// The integer under `key`, where the entry is an integer of 64 signed bits.
pub open spec fn signed_at(m: Map<Seq<char>, Node>, key: Seq<char>) -> Option<i64> {
    if m.contains_key(key) {
        match m[key] {
            Node::Int(i) => if i64::MIN <= i <= i64::MAX {
                Some(i as i64)
            } else {
                None
            },
            _ => None,
        }
    } else {
        None
    }
}

/// The string under `key`, where the entry is a string.
pub open spec fn text_at(m: Map<Seq<char>, Node>, key: Seq<char>) -> Option<Seq<char>> {
    if m.contains_key(key) {
        match m[key] {
            Node::Text(t) => Some(t),
            _ => None,
        }
    } else {
        None
    }
}

/// The dictionary under `key`, where the entry is a dictionary.
pub open spec fn record_at(m: Map<Seq<char>, Node>, key: Seq<char>) -> Option<
    Map<Seq<char>, Node>,
> {
    if m.contains_key(key) {
        match m[key] {
            Node::Dict(inner) => Some(inner),
            _ => None,
        }
    } else {
        None
    }
}

} // verus!
