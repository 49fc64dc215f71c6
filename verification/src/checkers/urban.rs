//! Urban Dictionary.
//!
//! Asks the JSON API for the definitions of the word: a non-empty `list`
//! means found, an empty one not found.
//!
//! URL structure: `https://api.urbandictionary.com/v0/define?term=WORD`

use vstd::prelude::*;
use crate::json::{JsonValue, json_get, json_get_spec};

verus! {

/// The Urban Dictionary verdict on the API's answer (`None` when the answer
/// could not be had or read as JSON).
pub open spec fn urban_spec(data: Option<JsonValue>) -> Option<bool> {
    match data {
        Some(v) => match json_get_spec(v, "list"@) {
            Some(JsonValue::Array(list)) => Some(list@.len() > 0),
            _ => None,
        },
        None => None,
    }
}

/// The Urban Dictionary verdict on the API's answer.
pub fn urban_verdict(data: &Option<JsonValue>) -> (r: Option<bool>)
    ensures
        r == urban_spec(*data),
{
    match data {
        Some(v) => match json_get(v, "list") {
            Some(JsonValue::Array(list)) => Some(list.len() > 0),
            _ => None,
        },
        None => None,
    }
}

/// Urban Dictionary has the word exactly when the answer's `list` is a
/// non-empty array, and not when it is an empty one; without such a list
/// the verdict is unknown.
pub proof fn lemma_urban_list(data: Option<JsonValue>, v: JsonValue, list: Vec<JsonValue>)
    requires
        data == Some(v),
        json_get_spec(v, "list"@) == Some(JsonValue::Array(list)),
    ensures
        list@.len() > 0 ==> urban_spec(data) == Some(true),
        list@.len() == 0 ==> urban_spec(data) == Some(false),
{
}

} // verus!
