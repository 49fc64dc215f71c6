//! WordNet.
//!
//! Looks at the tag names of the element children of `<body>` (found by
//! name): `form, form, h3`
//! means not found; `div.header, div.form` means found; anything else is
//! unknown.
//!
//! URL structure: `http://wordnetweb.princeton.edu/perl/webwn?s=WORD`

use vstd::prelude::*;
use crate::dom::{
    DomNode, StepSpec, body_index_spec, class_of, class_or_empty, domstroll, domstroll_spec, element_children,
    element_children_spec, element_named, find_body_index, has_root_spec, is_element_named, lemma_element_children,
    path_view, plain_step,
};
use crate::text::str_eq;

verus! {

/// The walk from the root element to `<body>`, given its position.
pub open spec fn wordnet_path(body: int) -> Seq<StepSpec> {
    seq![plain_step(body, "body"@)]
}

/// The WordNet verdict on a search page.
pub open spec fn wordnet_spec(nodes: Seq<DomNode>) -> Option<bool> {
    let body = match body_index_spec(nodes) {
        Some(i) => i,
        None => 3,
    };
    match domstroll_spec(nodes, "wordnet"@, wordnet_path(body)) {
        Ok(body) => {
            let tags = element_children_spec(nodes, body);
            if tags.len() >= 3 && is_element_named(nodes, tags[0], "form"@)
                && is_element_named(nodes, tags[1], "form"@) && is_element_named(nodes, tags[2], "h3"@) {
                Some(false)
            } else if tags.len() >= 2 && is_element_named(nodes, tags[0], "div"@)
                && is_element_named(nodes, tags[1], "div"@)
                && class_or_empty(nodes[tags[0]]) == "header"@
                && class_or_empty(nodes[tags[1]]) == "form"@ {
                Some(true)
            } else {
                None
            }
        },
        Err(_) => None,
    }
}

/// The WordNet verdict on a search page.
pub fn wordnet_verdict(dom: &Vec<DomNode>) -> (r: Option<bool>)
    requires
        has_root_spec(dom@),
    ensures
        r == wordnet_spec(dom@),
{
    let body = match find_body_index(dom) {
        Some(i) => i,
        None => 3,
    };
    let path = vec![(body, "body", None)];
    assert(path_view(path@) =~= wordnet_path(body as int));
    match domstroll("wordnet", false, dom, path.as_slice()) {
        Ok(body) => {
            let tags = element_children(dom, body);
            proof { lemma_element_children(dom@, body as int); }
            if tags.len() >= 3 && element_named(dom, tags[0], "form") && element_named(dom, tags[1], "form")
                && element_named(dom, tags[2], "h3") {
                return Some(false);
            }
            if tags.len() >= 2 && element_named(dom, tags[0], "div") && element_named(dom, tags[1], "div")
                && str_eq(class_of(dom, tags[0]), "header") && str_eq(class_of(dom, tags[1]), "form") {
                return Some(true);
            }
            None
        },
        Err(_) => None,
    }
}

/// When the walk reaches `<body>`, WordNet does not have the word if its
/// element children start `form, form, h3`, and has it if they start with
/// a `div` of class `header` and a `div` of class `form`.
pub proof fn lemma_wordnet_patterns(nodes: Seq<DomNode>, body: int)
    requires
        domstroll_spec(
            nodes,
            "wordnet"@,
            wordnet_path(
                match body_index_spec(nodes) {
                    Some(i) => i,
                    None => 3,
                },
            ),
        ) == Ok::<int, Seq<char>>(body),
    ensures
        ({
            let t = element_children_spec(nodes, body);
            &&& t.len() >= 3 && is_element_named(nodes, t[0], "form"@) && is_element_named(nodes, t[1], "form"@)
                && is_element_named(nodes, t[2], "h3"@) ==> wordnet_spec(nodes) == Some(false)
            &&& t.len() >= 2 && is_element_named(nodes, t[0], "div"@) && is_element_named(nodes, t[1], "div"@)
                && class_or_empty(nodes[t[0]]) == "header"@ && class_or_empty(nodes[t[1]]) == "form"@
                && !is_element_named(nodes, t[0], "form"@) ==> wordnet_spec(nodes) == Some(true)
        }),
{
}

} // verus!
