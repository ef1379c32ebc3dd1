//! Reading JSON text. The text is parsed by `serde_json`; what it hands back
//! is copied, value by value, into a [`Json`].

use vstd::prelude::*;
use vstd::string::StringExecFns;

use crate::json::Json;
use crate::json::JsonView;
use crate::json::lemma_items_view;
use crate::json::lemma_members_view;

verus! {

/// `serde_json::Value`, which is carried about and never looked into: what
/// it holds is known through [`value_model`] alone.
#[verifier::external_type_specification]
#[verifier::external_body]
pub struct ExValue(serde_json::Value);

/// `serde_json::Error`, of which only the text is used.
#[verifier::external_type_specification]
#[verifier::external_body]
pub struct ExError(serde_json::Error);

/// What a `serde_json::Value` holds: its variant and, below it, its parts.
/// The members of an object stand in the order in which its map hands them
/// out.
pub uninterp spec fn value_model(value: serde_json::Value) -> JsonView;

/// The value that a JSON text stands for; `None` for bytes that are no
/// well-formed JSON text.
pub uninterp spec fn parsed_json(bytes: Seq<u8>) -> Option<JsonView>;

/// Trusted: `serde_json::from_slice`, read at the type `serde_json::Value`.
/// It parses the whole of `bytes` as one JSON text. What it returns depends
/// on the bytes alone, which is all that this contract says.
#[verifier::external_body]
fn parse_value(bytes: &[u8]) -> (parsed: Result<serde_json::Value, serde_json::Error>)
    ensures
        match parsed {
            Ok(value) => parsed_json(bytes@) == Some(value_model(value)),
            Err(_) => parsed_json(bytes@) is None,
        },
{
    serde_json::from_slice::<serde_json::Value>(bytes)
}

/// Trusted: the text of a `serde_json::Error`, as its `Display` writes it.
/// Nothing is claimed of that text.
#[verifier::external_body]
fn error_text(error: &serde_json::Error) -> String {
    error.to_string()
}

/// Trusted: `Value::as_bool` hands out the boolean of the variant `Bool`, and
/// `None` for every other variant.
pub assume_specification[ serde_json::Value::as_bool ](value: &serde_json::Value) -> (found:
    Option<bool>)
    ensures
        found == (match value_model(*value) {
            JsonView::Bool(b) => Some(b),
            _ => None,
        }),
;

/// Trusted: `Value::is_number` is true of the variant `Number` alone.
pub assume_specification[ serde_json::Value::is_number ](value: &serde_json::Value) -> (number:
    bool)
    ensures
        number == (value_model(*value) is Natural || value_model(*value) is OtherNumber),
;

/// Trusted: `Value::as_u64` hands out a number that was read as a whole
/// number from 0 to 2^64 - 1, and `None` for a number that was read as
/// negative or as a float, and for every value that is no number.
pub assume_specification[ serde_json::Value::as_u64 ](value: &serde_json::Value) -> (found:
    Option<u64>)
    ensures
        found == (match value_model(*value) {
            JsonView::Natural(n) => Some(n),
            _ => None,
        }),
;

/// Trusted: `Value::as_str` hands out the text of the variant `String`, and
/// `None` for every other variant.
pub assume_specification<'a>[ serde_json::Value::as_str ](value: &'a serde_json::Value) -> (found:
    Option<&'a str>)
    ensures
        match found {
            Some(text) => value_model(*value) == JsonView::Text(text@),
            None => !(value_model(*value) is Text),
        },
;

/// Trusted: `Value::as_array` hands out the vector of the variant `Array`,
/// whose elements are the items in their order, and `None` for every other
/// variant.
pub assume_specification<'a>[ serde_json::Value::as_array ](value: &'a serde_json::Value) -> (found:
    Option<&'a Vec<serde_json::Value>>)
    ensures
        match found {
            Some(items) => {
                &&& value_model(*value) matches JsonView::Array(models)
                &&& models.len() == items@.len()
                &&& forall|i: int|
                    0 <= i < items@.len() ==> value_model(#[trigger] items@[i]) == models[i]
            },
            None => !(value_model(*value) is Array),
        },
;

/// Trusted: the variant `Object` of `serde_json::Value`, and `Map::iter`. For
/// an object the members come out as the map's iterator yields them, each
/// name beside its value; for every other variant the result is `None`.
#[verifier::external_body]
fn object_members<'a>(value: &'a serde_json::Value) -> (found: Option<
    Vec<(&'a String, &'a serde_json::Value)>,
>)
    ensures
        match found {
            Some(members) => {
                &&& value_model(*value) matches JsonView::Object(models)
                &&& models.len() == members@.len()
                &&& forall|i: int|
                    0 <= i < members@.len() ==> (#[trigger] members@[i]).0@ == models[i].0
                        && value_model(*members@[i].1) == models[i].1
            },
            None => !(value_model(*value) is Object),
        },
{
    match value {
        serde_json::Value::Object(map) => Some(map.iter().collect()),
        _ => None,
    }
}

/// Copies a parsed value into a [`Json`], part by part.
fn json_of_value(value: &serde_json::Value) -> (json: Json)
    ensures
        json@ == value_model(*value),
    decreases value_model(*value),
{
    if let Some(b) = value.as_bool() {
        return Json::Bool(b);
    }
    if let Some(n) = value.as_u64() {
        return Json::Natural(n);
    }
    if value.is_number() {
        return Json::OtherNumber;
    }
    if let Some(text) = value.as_str() {
        return Json::Text(String::from_str(text));
    }
    if let Some(items) = value.as_array() {
        let ghost models = value_model(*value)->Array_0;
        let mut copied: Vec<Json> = Vec::new();
        let mut i: usize = 0;
        while i < items.len()
            invariant
                i <= items.len(),
                copied.len() == i,
                value_model(*value) == JsonView::Array(models),
                models.len() == items@.len(),
                forall|k: int|
                    0 <= k < items@.len() ==> value_model(#[trigger] items@[k]) == models[k],
                forall|k: int| 0 <= k < i ==> (#[trigger] copied@[k])@ == models[k],
            decreases items.len() - i,
        {
            proof {
                assert(decreases_to!(value_model(*value) => value_model(*value)->Array_0));
                assert(decreases_to!(models => models[i as int]));
            }
            let item = json_of_value(&items[i]);
            copied.push(item);
            i += 1;
        }
        proof {
            lemma_items_view(copied@);
        }
        let json = Json::Array(copied);
        assert(json@->Array_0 =~= models);
        return json;
    }
    if let Some(members) = object_members(value) {
        let ghost models = value_model(*value)->Object_0;
        let mut copied: Vec<(String, Json)> = Vec::new();
        let mut i: usize = 0;
        while i < members.len()
            invariant
                i <= members.len(),
                copied.len() == i,
                value_model(*value) == JsonView::Object(models),
                models.len() == members@.len(),
                forall|k: int|
                    0 <= k < members@.len() ==> (#[trigger] members@[k]).0@ == models[k].0
                        && value_model(*members@[k].1) == models[k].1,
                forall|k: int|
                    0 <= k < i ==> (#[trigger] copied@[k]).0@ == models[k].0 && copied@[k].1@
                        == models[k].1,
            decreases members.len() - i,
        {
            proof {
                assert(decreases_to!(value_model(*value) => value_model(*value)->Object_0));
                assert(decreases_to!(models => models[i as int]));
                assert(decreases_to!(models[i as int] => models[i as int].1));
            }
            let name = members[i].0.clone();
            let member = json_of_value(members[i].1);
            copied.push((name, member));
            i += 1;
        }
        proof {
            lemma_members_view(copied@);
        }
        let json = Json::Object(copied);
        assert(json@->Object_0 =~= models);
        return json;
    }
    Json::Null
}

/// Why a text could not be read as JSON.
#[derive(Debug, PartialEq, Eq)]
pub struct SyntaxError {
    /// The parser's own account of what is wrong, and where.
    pub message: String,
}

/// Reads `bytes` as one JSON text.
///
/// The result is `Ok` exactly for the texts that `serde_json` accepts, and
/// then holds the value that it read.
pub fn parse_json(bytes: &[u8]) -> (parsed: Result<Json, SyntaxError>)
    ensures
        match parsed {
            Ok(json) => parsed_json(bytes@) == Some(json@),
            Err(_) => parsed_json(bytes@) is None,
        },
{
    match parse_value(bytes) {
        Ok(value) => Ok(json_of_value(&value)),
        Err(error) => Err(SyntaxError { message: error_text(&error) }),
    }
}

} // verus!
