//! American Heritage Dictionary.
//!
//! Navigates from `<body>` (found by name) to `div#results` and checks its
//! children: a single text node means not found; a child count divisible by
//! four whose first child is a `<table>` (the pattern `<table> <hr>
//! <span.copyright> <comment>`, repeated) means found.
//!
//! URL structure: `https://ahdictionary.com/word/search.html?q=WORD`

use vstd::prelude::*;
use crate::dom::{
    DomNode, DomOpts, NodeKind, StepSpec, body_index_spec, children_of, children_spec, class_step, domstroll,
    domstroll_spec, element_named, find_body_index, has_root_spec, id_step, is_element_named, lemma_children_bounds,
    path_view, plain_step,
};

verus! {

/// The walk from the root element to `div#results`, given the position of
/// `<body>`.
pub open spec fn ahd_path(body: int) -> Seq<StepSpec> {
    seq![
        plain_step(body, "body"@),
        id_step(3, "div"@, "content"@),
        class_step(2, "div"@, "container3"@),
        id_step(1, "div"@, "results"@),
    ]
}

/// The American Heritage verdict on a results page.
pub open spec fn ahd_spec(nodes: Seq<DomNode>) -> Option<bool> {
    let body = match body_index_spec(nodes) {
        Some(i) => i,
        None => 1,
    };
    match domstroll_spec(nodes, "ahd"@, ahd_path(body)) {
        Ok(r) => {
            let kids = children_spec(nodes, r);
            if kids.len() == 1 && nodes[kids[0]].kind == NodeKind::Text {
                Some(false)
            } else if kids.len() % 4 == 0 && kids.len() > 0 && is_element_named(nodes, kids[0], "table"@) {
                Some(true)
            } else {
                None
            }
        },
        Err(_) => None,
    }
}

/// The American Heritage verdict on a results page.
pub fn ahd_verdict(dom: &Vec<DomNode>) -> (r: Option<bool>)
    requires
        has_root_spec(dom@),
    ensures
        r == ahd_spec(dom@),
{
    let body = match find_body_index(dom) {
        Some(i) => i,
        None => 1,
    };
    let path = vec![
        (body, "body", None),
        (3usize, "div", Some(DomOpts::with_id("content"))),
        (2usize, "div", Some(DomOpts::with_class("container3"))),
        (1usize, "div", Some(DomOpts::with_id("results"))),
    ];
    assert(path_view(path@) =~= ahd_path(body as int));
    match domstroll("ahd", false, dom, path.as_slice()) {
        Ok(results) => {
            let kids = children_of(dom, results);
            proof { lemma_children_bounds(dom@, results as int); }
            let n = kids.len();
            if n == 1 && dom[kids[0]].kind == NodeKind::Text {
                return Some(false);
            }
            if n % 4 == 0 && n > 0 && element_named(dom, kids[0], "table") {
                return Some(true);
            }
            None
        },
        Err(_) => None,
    }
}

/// When the walk reaches `div#results`, American Heritage has the word when
/// the results are a positive multiple of four children starting with a
/// `<table>`, and not when they are a single text node.
pub proof fn lemma_ahd_results(nodes: Seq<DomNode>, r: int)
    requires
        domstroll_spec(
            nodes,
            "ahd"@,
            ahd_path(
                match body_index_spec(nodes) {
                    Some(i) => i,
                    None => 1,
                },
            ),
        ) == Ok::<int, Seq<char>>(r),
    ensures
        ({
            let kids = children_spec(nodes, r);
            &&& kids.len() > 0 && kids.len() % 4 == 0 && is_element_named(nodes, kids[0], "table"@)
                ==> ahd_spec(nodes) == Some(true)
            &&& kids.len() == 1 && nodes[kids[0]].kind == NodeKind::Text ==> ahd_spec(nodes) == Some(false)
        }),
{
}

} // verus!
