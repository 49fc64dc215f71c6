//! Oxford Learner's Dictionaries.
//!
//! A deep walk from `<body>` (found by name) to the entry's `.webtop`: without an `#ox-container` the
//! verdict is unknown; without the `.xenglish` part, or without the
//! `.webtop`, the word is not found; with the `.webtop` it is found.
//!
//! URL structure: `https://www.oxfordlearnersdictionaries.com/definition/english/WORD`

use vstd::prelude::*;
use crate::dom::{
    DomNode, DomOpts, StepSpec, body_index_spec, class_step, domstroll, domstroll_spec, find_body_index, has_root_spec, id_step,
    optional_class_step, path_view, plain_step,
};

verus! {

/// The walk to `#ox-container`, given the position of `<body>`.
pub open spec fn ox_container_path(body: int) -> Seq<StepSpec> {
    seq![plain_step(body, "body"@), id_step(1, "div"@, "ox-container"@)]
}

/// The walk to the `.xenglish` part, which may be missing.
pub open spec fn ox_xenglish_path(body: int) -> Seq<StepSpec> {
    seq![plain_step(body, "body"@), id_step(1, "div"@, "ox-container"@), optional_class_step(5, "div"@, "xenglish"@)]
}

/// The walk to the entry's `.webtop`.
pub open spec fn ox_webtop_path(body: int) -> Seq<StepSpec> {
    seq![
        plain_step(body, "body"@),
        id_step(1, "div"@, "ox-container"@),
        class_step(5, "div"@, "xenglish"@),
        class_step(3, "div"@, "responsive_row"@),
        class_step(3, "div"@, "responsive_entry_center"@),
        class_step(1, "div"@, "responsive_entry_center_wrap"@),
        id_step(3, "div"@, "ox-wrapper"@),
        id_step(1, "div"@, "main_column"@),
        id_step(1, "div"@, "main-container"@),
        id_step(5, "div"@, "entryContent"@),
        plain_step(0, "div"@),
        class_step(0, "div"@, "top-container"@),
        plain_step(0, "div"@),
        class_step(0, "div"@, "webtop"@),
    ]
}

/// The Oxford Learner's verdict on an entry page.
pub open spec fn oxfordlearners_spec(nodes: Seq<DomNode>) -> Option<bool> {
    let b = match body_index_spec(nodes) {
        Some(i) => i,
        None => 2,
    };
    if domstroll_spec(nodes, "ox"@, ox_container_path(b)) is Err {
        None
    } else if domstroll_spec(nodes, "ox"@, ox_xenglish_path(b)) is Err {
        Some(false)
    } else {
        Some(domstroll_spec(nodes, "ox"@, ox_webtop_path(b)) is Ok)
    }
}

/// The Oxford Learner's verdict on an entry page.
pub fn oxfordlearners_verdict(dom: &Vec<DomNode>) -> (r: Option<bool>)
    requires
        has_root_spec(dom@),
    ensures
        r == oxfordlearners_spec(dom@),
{
    let b = match find_body_index(dom) {
        Some(i) => i,
        None => 2,
    };
    let p1 = vec![(b, "body", None), (1usize, "div", Some(DomOpts::with_id("ox-container")))];
    assert(path_view(p1@) =~= ox_container_path(b as int));
    if domstroll("ox", false, dom, p1.as_slice()).is_err() {
        return None;
    }
    let p2 = vec![
        (b, "body", None),
        (1usize, "div", Some(DomOpts::with_id("ox-container"))),
        (5usize, "div", Some(DomOpts::optional_class("xenglish"))),
    ];
    assert(path_view(p2@) =~= ox_xenglish_path(b as int));
    if domstroll("ox", false, dom, p2.as_slice()).is_err() {
        return Some(false);
    }
    let p3 = vec![
        (b, "body", None),
        (1usize, "div", Some(DomOpts::with_id("ox-container"))),
        (5usize, "div", Some(DomOpts::with_class("xenglish"))),
        (3usize, "div", Some(DomOpts::with_class("responsive_row"))),
        (3usize, "div", Some(DomOpts::with_class("responsive_entry_center"))),
        (1usize, "div", Some(DomOpts::with_class("responsive_entry_center_wrap"))),
        (3usize, "div", Some(DomOpts::with_id("ox-wrapper"))),
        (1usize, "div", Some(DomOpts::with_id("main_column"))),
        (1usize, "div", Some(DomOpts::with_id("main-container"))),
        (5usize, "div", Some(DomOpts::with_id("entryContent"))),
        (0usize, "div", None),
        (0usize, "div", Some(DomOpts::with_class("top-container"))),
        (0usize, "div", None),
        (0usize, "div", Some(DomOpts::with_class("webtop"))),
    ];
    assert(path_view(p3@) =~= ox_webtop_path(b as int));
    Some(domstroll("ox", false, dom, p3.as_slice()).is_ok())
}

/// On a page where `#ox-container` and `.xenglish` are reached, Oxford
/// Learner's has the word exactly when the walk to `.webtop` succeeds.
pub proof fn lemma_oxfordlearners_webtop(nodes: Seq<DomNode>, b: int)
    requires
        b == (match body_index_spec(nodes) {
            Some(i) => i,
            None => 2,
        }),
        domstroll_spec(nodes, "ox"@, ox_container_path(b)) is Ok,
        domstroll_spec(nodes, "ox"@, ox_xenglish_path(b)) is Ok,
    ensures
        domstroll_spec(nodes, "ox"@, ox_webtop_path(b)) is Ok ==> oxfordlearners_spec(nodes) == Some(true),
        domstroll_spec(nodes, "ox"@, ox_webtop_path(b)) is Err ==> oxfordlearners_spec(nodes) == Some(false),
{
}

/// Without `#ox-container` the Oxford Learner's verdict is unknown; with it
/// but without `.xenglish` the word is not found.
pub proof fn lemma_oxfordlearners_missing_parts(nodes: Seq<DomNode>, b: int)
    requires
        b == (match body_index_spec(nodes) {
            Some(i) => i,
            None => 2,
        }),
    ensures
        domstroll_spec(nodes, "ox"@, ox_container_path(b)) is Err ==> oxfordlearners_spec(nodes) is None,
        domstroll_spec(nodes, "ox"@, ox_container_path(b)) is Ok && domstroll_spec(nodes, "ox"@, ox_xenglish_path(b)) is Err
            ==> oxfordlearners_spec(nodes) == Some(false),
{
}

} // verus!
