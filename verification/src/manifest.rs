//! The manifest file: a JSON object that declares a package.
//!
//! Reading JSON is `serde_json`'s work. What a manifest must hold is decided
//! here, on the document that `serde_json` hands back.

use vstd::prelude::*;
use serde_json::Value;
use crate::common::{texts, BooPackageDefinition, DefinitionView};
use crate::text::joined3;

verus! {

/// A JSON document of `serde_json`. Nothing is known of what is inside it
/// but through the functions below.
#[verifier::external_type_specification]
#[verifier::external_body]
pub struct ExValue(serde_json::Value);

/// The document that `text` is when read as JSON, or the parser's message
/// when it is none.
pub uninterp spec fn json_document(text: Seq<char>) -> Result<Value, Seq<char>>;

/// The member of the object `value` under `key`. `None` when `value` is no
/// object or has no such member.
pub uninterp spec fn json_member(value: Value, key: Seq<char>) -> Option<Value>;

/// The text of `value` when it is a JSON string.
pub uninterp spec fn json_text(value: Value) -> Option<Seq<char>>;

/// The items of `value` when it is a JSON array.
pub uninterp spec fn json_items(value: Value) -> Option<Seq<Value>>;

/// `serde_json::from_str`, read into a `Value`. The outcome is a function of
/// the text alone; an error is handed back as its message.
#[verifier::external_body]
fn parse_json(text: &str) -> (parsed: Result<Value, String>)
    ensures
        match parsed {
            Ok(value) => json_document(text@) == Ok::<Value, Seq<char>>(value),
            Err(message) => json_document(text@) == Err::<Value, Seq<char>>(message@),
        },
{
    serde_json::from_str::<Value>(text).map_err(|error| error.to_string())
}

/// `Value::get` with a text key: the member of an object under that key.
#[verifier::external_body]
fn member<'a>(value: &'a Value, key: &str) -> (found: Option<&'a Value>)
    ensures
        match found {
            Some(inner) => json_member(*value, key@) == Some(*inner),
            None => json_member(*value, key@) is None,
        },
{
    value.get(key)
}

/// `Value::as_str`: the text of a JSON string, `None` for any other value.
pub assume_specification[ Value::as_str ](value: &Value) -> (text: Option<&str>)
    ensures
        match text {
            Some(inner) => json_text(*value) == Some(inner@),
            None => json_text(*value) is None,
        },
;

/// `Value::as_array`: the items of a JSON array, `None` for any other value.
pub assume_specification[ Value::as_array ](value: &Value) -> (items: Option<&Vec<Value>>)
    ensures
        match items {
            Some(inner) => json_items(*value) == Some(inner@),
            None => json_items(*value) is None,
        },
;

/// The text under `key`, or what is wrong with that member.
pub open spec fn text_member(value: Value, key: Seq<char>) -> Result<Seq<char>, Seq<char>> {
    match json_member(value, key) {
        None => Err("missing field '"@ + key + "'"@),
        Some(inner) => match json_text(inner) {
            None => Err("field '"@ + key + "' must be a string"@),
            Some(text) => Ok(text),
        },
    }
}

/// Every item is a JSON string.
pub open spec fn all_text(items: Seq<Value>) -> bool {
    forall|i: int| 0 <= i < items.len() ==> json_text(#[trigger] items[i]) is Some
}

/// The texts under `key`, or what is wrong with that member.
pub open spec fn text_list_member(value: Value, key: Seq<char>) -> Result<
    Seq<Seq<char>>,
    Seq<char>,
> {
    match json_member(value, key) {
        None => Err("missing field '"@ + key + "'"@),
        Some(inner) => match json_items(inner) {
            Some(items) if all_text(items) => Ok(
                Seq::new(items.len(), |i: int| json_text(items[i])->0),
            ),
            _ => Err("field '"@ + key + "' must be a list of strings"@),
        },
    }
}

/// The definition that the document `value` holds: an object with the texts
/// `name` and `version` and the list of texts `include`. The first member
/// that is missing or of another kind decides the message.
pub open spec fn manifest_of(value: Value) -> Result<DefinitionView, Seq<char>> {
    match text_member(value, "name"@) {
        Err(message) => Err(message),
        Ok(name) => match text_member(value, "version"@) {
            Err(message) => Err(message),
            Ok(version) => match text_list_member(value, "include"@) {
                Err(message) => Err(message),
                Ok(includes) => Ok(DefinitionView { name, version, includes }),
            },
        },
    }
}

/// The definition that `text` holds, or why it holds none.
pub open spec fn manifest_in(text: Seq<char>) -> Result<DefinitionView, Seq<char>> {
    match json_document(text) {
        Err(message) => Err(message),
        Ok(value) => manifest_of(value),
    }
}

fn read_text_member(value: &Value, key: &str) -> (read: Result<String, String>)
    ensures
        match read {
            Ok(text) => text_member(*value, key@) == Ok::<Seq<char>, Seq<char>>(text@),
            Err(message) => text_member(*value, key@) == Err::<Seq<char>, Seq<char>>(message@),
        },
{
    match member(value, key) {
        None => Err(joined3("missing field '", key, "'")),
        Some(inner) => match inner.as_str() {
            None => Err(joined3("field '", key, "' must be a string")),
            Some(text) => Ok(String::from_str(text)),
        },
    }
}

fn read_text_list_member(value: &Value, key: &str) -> (read: Result<Vec<String>, String>)
    ensures
        match read {
            Ok(list) => text_list_member(*value, key@) == Ok::<Seq<Seq<char>>, Seq<char>>(
                texts(list@),
            ),
            Err(message) => text_list_member(*value, key@) == Err::<Seq<Seq<char>>, Seq<char>>(
                message@,
            ),
        },
{
    let inner = match member(value, key) {
        None => {
            return Err(joined3("missing field '", key, "'"));
        },
        Some(inner) => inner,
    };
    let items = match inner.as_array() {
        None => {
            return Err(joined3("field '", key, "' must be a list of strings"));
        },
        Some(items) => items,
    };
    let mut list: Vec<String> = Vec::new();
    let mut i: usize = 0;
    while i < items.len()
        invariant
            i <= items.len(),
            list.len() == i,
            json_member(*value, key@) == Some(*inner),
            json_items(*inner) == Some(items@),
            all_text(items@.take(i as int)),
            forall|k: int| 0 <= k < i ==> json_text(items@[k]) == Some(#[trigger] list@[k]@),
        decreases items.len() - i,
    {
        match items[i].as_str() {
            None => {
                return Err(joined3("field '", key, "' must be a list of strings"));
            },
            Some(text) => {
                list.push(String::from_str(text));
            },
        }
        i = i + 1;
    }
    proof {
        assert(items@.take(i as int) == items@);
        assert(texts(list@) =~= Seq::new(items@.len(), |k: int| json_text(items@[k])->0));
    }
    Ok(list)
}

/// Reads a manifest: JSON text with the members `name`, `version` and
/// `include`. Other members are ignored.
pub fn parse_manifest(text: &str) -> (parsed: Result<BooPackageDefinition, String>)
    ensures
        match parsed {
            Ok(definition) => manifest_in(text@) == Ok::<DefinitionView, Seq<char>>(definition@),
            Err(message) => manifest_in(text@) == Err::<DefinitionView, Seq<char>>(message@),
        },
{
    let value = match parse_json(text) {
        Err(message) => {
            return Err(message);
        },
        Ok(value) => value,
    };
    let name = match read_text_member(&value, "name") {
        Err(message) => {
            return Err(message);
        },
        Ok(name) => name,
    };
    let version = match read_text_member(&value, "version") {
        Err(message) => {
            return Err(message);
        },
        Ok(version) => version,
    };
    let includes = match read_text_list_member(&value, "include") {
        Err(message) => {
            return Err(message);
        },
        Ok(includes) => includes,
    };
    Ok(BooPackageDefinition { name, version, includes })
}

} // verus!
