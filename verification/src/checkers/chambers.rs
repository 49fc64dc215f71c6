//! Chambers Dictionary.
//!
//! Navigates to the `p.message` element of the search results and counts
//! its children: one means found, three means not found, anything else is
//! unknown.
//!
//! URL structure: `https://chambers.co.uk/search/?query=WORD&title=21st`

use vstd::prelude::*;
use crate::dom::{
    DomNode, DomOpts, StepSpec, body_index_spec, child_count, children_spec, class_step, domstroll,
    domstroll_spec, find_body_index, has_root_spec, id_step, path_view,
};

verus! {

/// The walk from the root element to `p.message`, given the position of the
/// `<body>` element.
pub open spec fn chambers_path(body: int) -> Seq<StepSpec> {
    seq![
        class_step(body, "body"@, "page-template-template-search-results"@),
        id_step(7, "div"@, "wrapper"@),
        id_step(4, "section"@, "content"@),
        class_step(1, "div"@, "row"@),
        id_step(1, "div"@, "search-results"@),
        id_step(8, "div"@, "fullsearchresults"@),
        class_step(0, "p"@, "message"@),
    ]
}

/// The Chambers verdict on a search results page.
pub open spec fn chambers_spec(nodes: Seq<DomNode>) -> Option<bool> {
    let body = match body_index_spec(nodes) {
        Some(i) => i,
        None => 3,
    };
    match domstroll_spec(nodes, "cham"@, chambers_path(body)) {
        Ok(m) => {
            let n = children_spec(nodes, m).len();
            if n == 1 {
                Some(true)
            } else if n == 3 {
                Some(false)
            } else {
                None
            }
        },
        Err(_) => None,
    }
}

/// The Chambers verdict on a search results page.
pub fn chambers_verdict(dom: &Vec<DomNode>) -> (r: Option<bool>)
    requires
        has_root_spec(dom@),
    ensures
        r == chambers_spec(dom@),
{
    let body = match find_body_index(dom) {
        Some(i) => i,
        None => 3,
    };
    let path = vec![
        (body, "body", Some(DomOpts::with_class("page-template-template-search-results"))),
        (7usize, "div", Some(DomOpts::with_id("wrapper"))),
        (4usize, "section", Some(DomOpts::with_id("content"))),
        (1usize, "div", Some(DomOpts::with_class("row"))),
        (1usize, "div", Some(DomOpts::with_id("search-results"))),
        (8usize, "div", Some(DomOpts::with_id("fullsearchresults"))),
        (0usize, "p", Some(DomOpts::with_class("message"))),
    ];
    assert(path_view(path@) =~= chambers_path(body as int));
    match domstroll("cham", false, dom, path.as_slice()) {
        Ok(m) => {
            let n = child_count(dom, m);
            if n == 1 {
                Some(true)
            } else if n == 3 {
                Some(false)
            } else {
                None
            }
        },
        Err(_) => None,
    }
}

/// When the walk reaches `p.message`, Chambers has the word exactly when
/// the message has one child, and not when it has three.
pub proof fn lemma_chambers_counts(nodes: Seq<DomNode>, m: int)
    requires
        domstroll_spec(
            nodes,
            "cham"@,
            chambers_path(
                match body_index_spec(nodes) {
                    Some(i) => i,
                    None => 3,
                },
            ),
        ) == Ok::<int, Seq<char>>(m),
    ensures
        children_spec(nodes, m).len() == 1 ==> chambers_spec(nodes) == Some(true),
        children_spec(nodes, m).len() == 3 ==> chambers_spec(nodes) == Some(false),
        children_spec(nodes, m).len() != 1 && children_spec(nodes, m).len() != 3 ==> chambers_spec(nodes) is None,
{
}

} // verus!
