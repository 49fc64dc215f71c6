//! Wiktionary.
//!
//! Queries the MediaWiki API of a Wiktionary.  The answer's `query.pages`
//! object holds one entry per title asked for: one with a `pageid` exists,
//! one marked `missing` does not.
//!
//! URL structure: `https://LANG.wiktionary.org/w/api.php?action=query&format=json&titles=WORD`

use vstd::prelude::*;
use vstd::string::*;
use crate::checkers::dispatch::MAX_WORD_LEN;
use crate::earl::{Earl, EarlError, EarlView, lemma_pairs_size_push, pair_views, param_views, url_parses};
use crate::json::{JsonValue, json_get, json_get_spec};

verus! {

/// The origin of the Wiktionary in language `lang`.
pub open spec fn wikt_origin(lang: Seq<char>) -> Seq<char> {
    "https://"@ + lang + ".wiktionary.org"@
}

/// The `User-Agent` sent to Wiktionary, which asks API clients to name
/// themselves.
pub open spec fn wikt_user_agent() -> Seq<char> {
    "isaword/1.0 (+https://github.com/hippietrail/isaword)"@
}

/// The request that asks the Wiktionary in language `lang` about `word`.
pub open spec fn wikt_request_spec(lang: Seq<char>, word: Seq<char>) -> EarlView {
    EarlView {
        origin: wikt_origin(lang),
        path: "/w/api.php"@,
        replace_query: false,
        pairs: seq![("action"@, "query"@), ("format"@, "json"@), ("titles"@, word)],
        headers: Some(seq![("User-Agent"@, wikt_user_agent())]),
    }
}

/// Makes the request that asks the Wiktionary in language `lang` about
/// `word`.
pub fn wikt_request(lang: &str, word: &str) -> (r: Result<Earl, EarlError>)
    requires
        lang@.len() <= MAX_WORD_LEN,
        word@.len() <= MAX_WORD_LEN,
    ensures
        r is Ok <==> url_parses(wikt_origin(lang@)),
        r matches Ok(e) ==> e@ == wikt_request_spec(lang@, word@),
{
    proof {
        reveal_strlit("https://");
        reveal_strlit(".wiktionary.org");
        reveal_strlit("/w/api.php");
        reveal_strlit("action");
        reveal_strlit("query");
        reveal_strlit("format");
        reveal_strlit("json");
        reveal_strlit("titles");
    }
    let mut origin = String::from_str("https://");
    origin.append(lang);
    origin.append(".wiktionary.org");
    let params = vec![
        ("action", String::from_str("query")),
        ("format", String::from_str("json")),
        ("titles", String::from_str(word)),
    ];
    let ghost ps = seq![("action"@, "query"@), ("format"@, "json"@), ("titles"@, word@)];
    assert(param_views(params@) =~= ps);
    proof {
        lemma_pairs_size_push(Seq::empty(), ps[0]);
        lemma_pairs_size_push(seq![ps[0]], ps[1]);
        lemma_pairs_size_push(seq![ps[0], ps[1]], ps[2]);
        assert(seq![ps[0]].push(ps[1]) =~= seq![ps[0], ps[1]]);
        assert(seq![ps[0], ps[1]].push(ps[2]) =~= ps);
    }
    let headers = vec![(String::from_str("User-Agent"), String::from_str("isaword/1.0 (+https://github.com/hippietrail/isaword)"))];
    assert(pair_views(headers@) =~= seq![("User-Agent"@, wikt_user_agent())]);
    Earl::with_headers(origin.as_str(), "/w/api.php", Some(params), headers)
}

/// The API's answer as a code: `Some(1)` when the page exists, `Some(0)`
/// when it is missing, `None` when the answer does not have that shape.
pub open spec fn wikt_code_spec(data: Option<JsonValue>) -> Option<u8> {
    match data {
        Some(v) => match json_get_spec(v, "query"@) {
            Some(q) => match json_get_spec(q, "pages"@) {
                Some(JsonValue::Object(pages)) => if pages@.len() == 1 {
                    if json_get_spec(pages@[0].1, "pageid"@) is Some {
                        Some(1u8)
                    } else if json_get_spec(pages@[0].1, "missing"@) is Some {
                        Some(0u8)
                    } else {
                        None
                    }
                } else {
                    None
                },
                _ => None,
            },
            None => None,
        },
        None => None,
    }
}

/// The API's answer as a code (1 found, 0 missing).
pub fn wikt_code(data: &Option<JsonValue>) -> (r: Option<u8>)
    ensures
        r == wikt_code_spec(*data),
{
    match data {
        Some(v) => match json_get(v, "query") {
            Some(q) => match json_get(q, "pages") {
                Some(JsonValue::Object(pages)) => {
                    if pages.len() == 1 {
                        let page = &pages[0].1;
                        if json_get(page, "pageid").is_some() {
                            Some(1u8)
                        } else if json_get(page, "missing").is_some() {
                            Some(0u8)
                        } else {
                            None
                        }
                    } else {
                        None
                    }
                },
                _ => None,
            },
            None => None,
        },
        None => None,
    }
}

/// The verdict that a code stands for.
pub open spec fn wikt_result_spec(code: Option<u8>) -> Option<bool> {
    match code {
        Some(1u8) => Some(true),
        Some(0u8) => Some(false),
        _ => None,
    }
}

/// The verdict that a code stands for.
pub fn wikt_result(code: Option<u8>) -> (r: Option<bool>)
    ensures
        r == wikt_result_spec(code),
{
    match code {
        Some(1u8) => Some(true),
        Some(0u8) => Some(false),
        _ => None,
    }
}

/// On an answer whose `query.pages` object holds exactly one page, the
/// Wiktionary verdict is found when that page has a `pageid`, and not found
/// when it has none but is marked `missing`.
pub proof fn lemma_wikt_single_page(data: Option<JsonValue>, v: JsonValue, q: JsonValue, pages: Vec<(String, JsonValue)>)
    requires
        data == Some(v),
        json_get_spec(v, "query"@) == Some(q),
        json_get_spec(q, "pages"@) == Some(JsonValue::Object(pages)),
        pages@.len() == 1,
    ensures
        json_get_spec(pages@[0].1, "pageid"@) is Some ==> wikt_result_spec(wikt_code_spec(data)) == Some(true),
        json_get_spec(pages@[0].1, "pageid"@) is None && json_get_spec(pages@[0].1, "missing"@) is Some
            ==> wikt_result_spec(wikt_code_spec(data)) == Some(false),
        json_get_spec(pages@[0].1, "pageid"@) is None && json_get_spec(pages@[0].1, "missing"@) is None
            ==> wikt_result_spec(wikt_code_spec(data)) is None,
{
}

/// Without a single page under `query.pages`, the Wiktionary verdict is
/// unknown.
pub proof fn lemma_wikt_not_single_page(data: Option<JsonValue>, v: JsonValue, q: JsonValue, pages: Vec<(String, JsonValue)>)
    requires
        data == Some(v),
        json_get_spec(v, "query"@) == Some(q),
        json_get_spec(q, "pages"@) == Some(JsonValue::Object(pages)),
        pages@.len() != 1,
    ensures
        wikt_result_spec(wikt_code_spec(data)) is None,
{
}

} // verus!
