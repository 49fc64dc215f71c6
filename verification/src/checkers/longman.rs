//! Longman Dictionary of Contemporary English.
//!
//! Looks at the page's `<head>` element: when its class holds `metadata`
//! the word is found, otherwise it is not.
//!
//! URL structure: `https://www.ldoceonline.com/dictionary/WORD`

use vstd::prelude::*;
use crate::dom::{
    DomNode, children_of, children_spec, class_of, class_or_empty, find_root_child_index, has_root_spec,
    lemma_children_bounds, lemma_first_element_named_bounds, root_child_index_spec, root_element,
    root_element_spec,
};
use crate::text::{contains_seq, str_contains};

verus! {

/// The page's `<head>` element: the first element named `head` among the
/// root element's children.
pub open spec fn head_spec(nodes: Seq<DomNode>) -> Option<int> {
    match (root_element_spec(nodes), root_child_index_spec(nodes, "head"@)) {
        (Some(r), Some(i)) => Some(children_spec(nodes, r)[i]),
        _ => None,
    }
}

/// The Longman verdict on an entry page: found exactly when `<head>` has a
/// class holding `metadata`.
pub open spec fn longman_spec(nodes: Seq<DomNode>) -> Option<bool> {
    match head_spec(nodes) {
        Some(h) => Some(contains_seq(class_or_empty(nodes[h]), "metadata"@)),
        None => Some(false),
    }
}

/// The Longman verdict on an entry page.
pub fn longman_verdict(dom: &Vec<DomNode>) -> (r: Option<bool>)
    requires
        has_root_spec(dom@),
    ensures
        r == longman_spec(dom@),
{
    let root = root_element(dom).unwrap();
    let kids = children_of(dom, root);
    proof {
        lemma_children_bounds(dom@, root as int);
        lemma_first_element_named_bounds(dom@, children_spec(dom@, root as int), "head"@);
    }
    match find_root_child_index(dom, "head") {
        Some(i) => {
            let h = kids[i];
            Some(str_contains(class_of(dom, h), "metadata"))
        },
        None => Some(false),
    }
}

/// Longman has the word exactly when the page's `<head>` has a class holding
/// `metadata`; it never answers "unknown".
pub proof fn lemma_longman_metadata(nodes: Seq<DomNode>)
    ensures
        longman_spec(nodes) == Some(true) <==> (exists|h: int|
            head_spec(nodes) == Some(h) && #[trigger] contains_seq(class_or_empty(nodes[h]), "metadata"@)),
        longman_spec(nodes) is Some,
{
}

} // verus!
