//! Merriam-Webster.
//!
//! The `<body>` (found by name) must carry the `definitions-page` class,
//! otherwise the word is not found; the word is then found when the page
//! holds a `.redesign-container` (partial matches lack it): a `div` of that
//! class inside the body's `div.main-container` inside its
//! `div.outer-container`, each the first such element child.
//!
//! URL structure: `https://www.merriam-webster.com/dictionary/WORD`

use vstd::prelude::*;
use crate::dom::{
    DomNode, StepSpec, body_index_spec, child_div_with_class, class_of, class_or_empty, domstroll,
    domstroll_spec, element_children_spec, find_body_index, first_div_with_class, has_root_spec, path_view,
    plain_step,
};
use crate::text::{contains_word, has_word};

verus! {

/// The walk from the root element to `<body>`, given its position.
pub open spec fn mw_body_path(body: int) -> Seq<StepSpec> {
    seq![plain_step(body, "body"@)]
}

/// The Merriam-Webster verdict on an entry page.
pub open spec fn mw_spec(nodes: Seq<DomNode>) -> Option<bool> {
    let b = match body_index_spec(nodes) {
        Some(i) => i,
        None => 2,
    };
    match domstroll_spec(nodes, "mw"@, mw_body_path(b)) {
        Ok(body) => {
            if !has_word(class_or_empty(nodes[body]), "definitions-page"@) {
                Some(false)
            } else {
                match first_div_with_class(nodes, element_children_spec(nodes, body), "outer-container"@) {
                    Some(outer) => match first_div_with_class(nodes, element_children_spec(nodes, outer), "main-container"@) {
                        Some(main) => Some(first_div_with_class(nodes, element_children_spec(nodes, main), "redesign-container"@) is Some),
                        None => Some(false),
                    },
                    None => Some(false),
                }
            }
        },
        Err(_) => None,
    }
}

/// The Merriam-Webster verdict on an entry page.
pub fn mw_verdict(dom: &Vec<DomNode>) -> (r: Option<bool>)
    requires
        has_root_spec(dom@),
    ensures
        r == mw_spec(dom@),
{
    let b = match find_body_index(dom) {
        Some(i) => i,
        None => 2,
    };
    let path = vec![(b, "body", None)];
    assert(path_view(path@) =~= mw_body_path(b as int));
    match domstroll("mw", false, dom, path.as_slice()) {
        Ok(body) => {
            if !contains_word(class_of(dom, body), "definitions-page") {
                return Some(false);
            }
            match child_div_with_class(dom, body, "outer-container") {
                Some(outer) => match child_div_with_class(dom, outer, "main-container") {
                    Some(main) => Some(child_div_with_class(dom, main, "redesign-container").is_some()),
                    None => Some(false),
                },
                None => Some(false),
            }
        },
        Err(_) => None,
    }
}

/// When the walk reaches `<body>`: without the `definitions-page` class the
/// word is not found; with it, it is found exactly when
/// `div.outer-container > div.main-container > div.redesign-container` is
/// there (each the first such element child).
pub proof fn lemma_mw_redesign(nodes: Seq<DomNode>, body: int)
    requires
        domstroll_spec(
            nodes,
            "mw"@,
            mw_body_path(
                match body_index_spec(nodes) {
                    Some(i) => i,
                    None => 2,
                },
            ),
        ) == Ok::<int, Seq<char>>(body),
    ensures
        !has_word(class_or_empty(nodes[body]), "definitions-page"@) ==> mw_spec(nodes) == Some(false),
        has_word(class_or_empty(nodes[body]), "definitions-page"@) ==> (mw_spec(nodes) == Some(true) <==> exists|o: int, m: int|
            #![trigger first_div_with_class(nodes, element_children_spec(nodes, o), "main-container"@), first_div_with_class(nodes, element_children_spec(nodes, m), "redesign-container"@)]
            first_div_with_class(nodes, element_children_spec(nodes, body), "outer-container"@) == Some(o)
                && first_div_with_class(nodes, element_children_spec(nodes, o), "main-container"@) == Some(m)
                && first_div_with_class(nodes, element_children_spec(nodes, m), "redesign-container"@) is Some),
        mw_spec(nodes) is Some,
{
}

} // verus!
