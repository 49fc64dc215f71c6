//! Dictionary.com.
//!
//! Walks from `<body>` (found by name) through `div#root` and
//! `div.dictionary-site` to `<main>` and counts its children: three means
//! not found, four means found, anything else is unknown.
//!
//! URL structure: `https://www.dictionary.com/browse/WORD`

use vstd::prelude::*;
use vstd::string::*;
use crate::checkers::dispatch::{MAX_WORD_LEN, segment_request, segment_request_spec};
use crate::earl::{Earl, EarlError, EarlView, pair_views, url_parses};
use crate::dom::{
    DomNode, DomOpts, StepSpec, body_index_spec, child_count, children_spec, class_step, domstroll,
    domstroll_spec, find_body_index, has_root_spec, id_step, path_view, plain_step,
};

verus! {

/// The walk from the root element to `<main>`, given the position of the
/// `<body>` element.
pub open spec fn dictcom_path(body: int) -> Seq<StepSpec> {
    seq![
        plain_step(body, "body"@),
        id_step(1, "div"@, "root"@),
        class_step(0, "div"@, "dictionary-site"@),
        plain_step(1, "main"@),
    ]
}

/// The verdict from the number of children of `<main>`.
pub open spec fn main_count_verdict(n: int) -> Option<bool> {
    if n == 3 {
        Some(false)
    } else if n == 4 {
        Some(true)
    } else {
        None
    }
}

fn main_count(n: usize) -> (r: Option<bool>)
    ensures
        r == main_count_verdict(n as int),
{
    if n == 3 {
        Some(false)
    } else if n == 4 {
        Some(true)
    } else {
        None
    }
}

/// The Dictionary.com verdict on an entry page, locating `<body>` by name
/// (position 2 when there is none).
pub open spec fn dictcom_spec(nodes: Seq<DomNode>) -> Option<bool> {
    let body = match body_index_spec(nodes) {
        Some(i) => i,
        None => 2,
    };
    match domstroll_spec(nodes, "dict.com"@, dictcom_path(body)) {
        Ok(m) => main_count_verdict(children_spec(nodes, m).len() as int),
        Err(_) => None,
    }
}

/// The Dictionary.com verdict on an entry page.
pub fn dictcom_verdict(dom: &Vec<DomNode>) -> (r: Option<bool>)
    requires
        has_root_spec(dom@),
    ensures
        r == dictcom_spec(dom@),
{
    let body = match find_body_index(dom) {
        Some(i) => i,
        None => 2,
    };
    let path = vec![
        (body, "body", None),
        (1usize, "div", Some(DomOpts::with_id("root"))),
        (0usize, "div", Some(DomOpts::with_class("dictionary-site"))),
        (1usize, "main", None),
    ];
    assert(path_view(path@) =~= dictcom_path(body as int));
    match domstroll("dict.com", false, dom, path.as_slice()) {
        Ok(m) => main_count(child_count(dom, m)),
        Err(_) => None,
    }
}

/// The browser `User-Agent` sent to Dictionary.com.
pub open spec fn browser_user_agent() -> Seq<char> {
    "Mozilla/5.0 (Macintosh; Intel Mac OS X 10_15_7) AppleWebKit/537.36 (KHTML, like Gecko) Chrome/120.0.0.0 Safari/537.36"@
}

/// The request for the entry page of `word`, sent with a browser user agent.
pub open spec fn dictcom_browser_request_spec(word: Seq<char>) -> EarlView {
    segment_request_spec(
        "https://www.dictionary.com"@,
        "/browse/"@,
        word,
        Some(seq![("User-Agent"@, browser_user_agent())]),
    )
}

/// Makes the request for the entry page of `word`, sent with a browser user
/// agent.
pub fn dictcom_browser_request(word: &str) -> (r: Result<Earl, EarlError>)
    requires
        word@.len() <= MAX_WORD_LEN,
    ensures
        r is Ok <==> url_parses("https://www.dictionary.com"@),
        r matches Ok(e) ==> e@ == dictcom_browser_request_spec(word@),
{
    proof {
        reveal_strlit("https://www.dictionary.com");
        reveal_strlit("/browse/");
    }
    let headers = vec![(
        String::from_str("User-Agent"),
        String::from_str("Mozilla/5.0 (Macintosh; Intel Mac OS X 10_15_7) AppleWebKit/537.36 (KHTML, like Gecko) Chrome/120.0.0.0 Safari/537.36"),
    )];
    assert(pair_views(headers@) =~= seq![("User-Agent"@, browser_user_agent())]);
    segment_request("https://www.dictionary.com", "/browse/", word, Some(headers))
}

/// When the walk reaches `<main>`, Dictionary.com has the word when `<main>`
/// has four children, does not when it has three, and cannot tell otherwise.
pub proof fn lemma_dictcom_counts(nodes: Seq<DomNode>, m: int)
    requires
        domstroll_spec(
            nodes,
            "dict.com"@,
            dictcom_path(
                match body_index_spec(nodes) {
                    Some(i) => i,
                    None => 2,
                },
            ),
        ) == Ok::<int, Seq<char>>(m),
    ensures
        children_spec(nodes, m).len() == 4 ==> dictcom_spec(nodes) == Some(true),
        children_spec(nodes, m).len() == 3 ==> dictcom_spec(nodes) == Some(false),
        children_spec(nodes, m).len() != 3 && children_spec(nodes, m).len() != 4 ==> dictcom_spec(nodes) is None,
{
}

} // verus!
