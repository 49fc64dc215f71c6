//! Oxford English Dictionary.
//!
//! Asks the OED's autocomplete API, which answers with an array of
//! suggestions; the word is found when some suggestion's `name` or `label`
//! equals it exactly (case-sensitive).
//!
//! URL structure: `https://www.oed.com/autocomplete/dictionary/?q=WORD`

use vstd::prelude::*;
use crate::json::{JsonValue, json_get_spec, json_str_member, str_or_empty};
use crate::text::str_eq;

verus! {

/// Whether a suggestion's `name` or `label` is `word` (a missing or
/// non-string member counts as `""`).
pub open spec fn oed_entry_matches(entry: JsonValue, word: Seq<char>) -> bool {
    str_or_empty(json_get_spec(entry, "name"@)) == word || str_or_empty(json_get_spec(entry, "label"@)) == word
}

/// Whether some suggestion matches `word`.
pub open spec fn oed_any_match(items: Seq<JsonValue>, word: Seq<char>) -> bool {
    exists|i: int| 0 <= i < items.len() && #[trigger] oed_entry_matches(items[i], word)
}

/// The OED verdict on the API's answer: `None` unless it is an array.
pub open spec fn oed_spec(word: Seq<char>, data: Option<JsonValue>) -> Option<bool> {
    match data {
        Some(JsonValue::Array(items)) => Some(oed_any_match(items@, word)),
        _ => None,
    }
}

/// The OED verdict on the API's answer.
pub fn oed_verdict(word: &str, data: &Option<JsonValue>) -> (r: Option<bool>)
    ensures
        r == oed_spec(word@, *data),
{
    match data {
        Some(JsonValue::Array(items)) => {
            assert(*data == Some(JsonValue::Array(*items)));
            let mut i: usize = 0;
            while i < items.len()
                invariant
                    *data == Some(JsonValue::Array(*items)),
                    i <= items.len(),
                    forall|j: int| 0 <= j < i ==> !#[trigger] oed_entry_matches(items@[j], word@),
                decreases items.len() - i,
            {
                let name = json_str_member(&items[i], "name");
                let label = json_str_member(&items[i], "label");
                if str_eq(name, word) || str_eq(label, word) {
                    assert(oed_entry_matches(items@[i as int], word@));
                    assert(oed_any_match(items@, word@));
                    return Some(true);
                }
                i = i + 1;
            }
            Some(false)
        },
        _ => None,
    }
}

/// On an array of suggestions, the OED has the word exactly when some
/// suggestion's `name` or `label` is the word; on anything else the verdict
/// is unknown.
pub proof fn lemma_oed_match(word: Seq<char>, data: Option<JsonValue>)
    ensures
        match data {
            Some(JsonValue::Array(items)) => oed_spec(word, data) == Some(
                exists|i: int|
                    0 <= i < items@.len() && (str_or_empty(json_get_spec(#[trigger] items@[i], "name"@)) == word
                        || str_or_empty(json_get_spec(items@[i], "label"@)) == word),
            ),
            _ => oed_spec(word, data) is None,
        },
{
    match data {
        Some(JsonValue::Array(items)) => {
            if exists|i: int|
                0 <= i < items@.len() && (str_or_empty(json_get_spec(#[trigger] items@[i], "name"@)) == word
                    || str_or_empty(json_get_spec(items@[i], "label"@)) == word) {
                let i = choose|i: int|
                    0 <= i < items@.len() && (str_or_empty(json_get_spec(#[trigger] items@[i], "name"@)) == word
                        || str_or_empty(json_get_spec(items@[i], "label"@)) == word);
                assert(oed_entry_matches(items@[i], word));
            }
        },
        _ => {},
    }
}

} // verus!
