//! Wordnik.
//!
//! Navigates to `div.guts` of the definitions module and checks its
//! children: element children that are one or more `h3`, `ul` pairs means
//! found; exactly three children whose second is `p.weak` means not found;
//! anything else is unknown.
//!
//! URL structure: `https://www.wordnik.com/words/WORD`

use vstd::prelude::*;
use crate::dom::{
    DomNode, DomOpts, StepSpec, body_index_spec, children_of, children_spec, class_step, domstroll, domstroll_spec,
    element_children, element_children_spec, element_named, find_body_index, has_root_spec, id_step,
    is_element_named, lemma_children_bounds, lemma_element_children, path_view, plain_step,
};
use crate::text::str_eq;

verus! {

/// The walk from the root element to `div.guts`, given the position of
/// `<body>`.
pub open spec fn wordnik_path(body: int) -> Seq<StepSpec> {
    seq![
        plain_step(body, "body"@),
        class_step(3, "div"@, "word_page"@),
        class_step(1, "div"@, "content"@),
        class_step(7, "div"@, "module-row"@),
        class_step(1, "div"@, "module-2columnLeft"@),
        id_step(1, "div"@, "define"@),
        class_step(3, "div"@, "guts"@),
    ]
}

/// Whether the elements `tags` alternate `h3`, `ul`, `h3`, `ul`, ...
/// (possibly ending on an `h3`).
pub open spec fn alternating_h3_ul(nodes: Seq<DomNode>, tags: Seq<int>) -> bool {
    forall|i: int| 0 <= i < tags.len() ==>
        if i % 2 == 0 { is_element_named(nodes, #[trigger] tags[i], "h3"@) } else { is_element_named(nodes, tags[i], "ul"@) }
}

/// The Wordnik verdict on a word page.
pub open spec fn wordnik_spec(nodes: Seq<DomNode>) -> Option<bool> {
    let body = match body_index_spec(nodes) {
        Some(i) => i,
        None => 2,
    };
    match domstroll_spec(nodes, "wordnik1"@, wordnik_path(body)) {
        Ok(guts) => {
            let kids = children_spec(nodes, guts);
            let tags = element_children_spec(nodes, guts);
            if tags.len() > 0 && tags.len() % 2 == 0 && alternating_h3_ul(nodes, tags) {
                Some(true)
            } else if kids.len() == 3 && is_element_named(nodes, kids[1], "p"@) && nodes[kids[1]].class is Some
                && nodes[kids[1]].class->0@ == "weak"@ {
                Some(false)
            } else {
                None
            }
        },
        Err(_) => None,
    }
}

/// The Wordnik verdict on a word page.
pub fn wordnik_verdict(dom: &Vec<DomNode>) -> (r: Option<bool>)
    requires
        has_root_spec(dom@),
    ensures
        r == wordnik_spec(dom@),
{
    let body = match find_body_index(dom) {
        Some(i) => i,
        None => 2,
    };
    let path = vec![
        (body, "body", None),
        (3usize, "div", Some(DomOpts::with_class("word_page"))),
        (1usize, "div", Some(DomOpts::with_class("content"))),
        (7usize, "div", Some(DomOpts::with_class("module-row"))),
        (1usize, "div", Some(DomOpts::with_class("module-2columnLeft"))),
        (1usize, "div", Some(DomOpts::with_id("define"))),
        (3usize, "div", Some(DomOpts::with_class("guts"))),
    ];
    assert(path_view(path@) =~= wordnik_path(body as int));
    match domstroll("wordnik1", false, dom, path.as_slice()) {
        Ok(guts) => {
            let kids = children_of(dom, guts);
            let tags = element_children(dom, guts);
            proof {
                lemma_children_bounds(dom@, guts as int);
                lemma_element_children(dom@, guts as int);
            }
            let ghost ts = element_children_spec(dom@, guts as int);
            if tags.len() > 0 && tags.len() % 2 == 0 {
                let mut ok = true;
                let mut i: usize = 0;
                while i < tags.len()
                    invariant
                        tags@.len() == ts.len(),
                        forall|k: int| 0 <= k < tags@.len() ==> tags@[k] as int == #[trigger] ts[k],
                        i <= tags.len(),
                        ok == (forall|k: int| 0 <= k < i ==>
                            if k % 2 == 0 { is_element_named(dom@, #[trigger] ts[k], "h3"@) } else { is_element_named(dom@, ts[k], "ul"@) }),
                    decreases tags.len() - i,
                {
                    let good = if i % 2 == 0 { element_named(dom, tags[i], "h3") } else { element_named(dom, tags[i], "ul") };
                    let ghost gi = if i % 2 == 0 { is_element_named(dom@, ts[i as int], "h3"@) } else { is_element_named(dom@, ts[i as int], "ul"@) };
                    assert(good == gi);
                    if !good {
                        ok = false;
                    }
                    proof {
                        if !gi {
                            let kk = i as int;
                            assert(!(if kk % 2 == 0 { is_element_named(dom@, ts[kk], "h3"@) } else { is_element_named(dom@, ts[kk], "ul"@) }));
                        }
                    }
                    i = i + 1;
                }
                if ok {
                    return Some(true);
                }
            }
            if kids.len() == 3 && element_named(dom, kids[1], "p") {
                match &dom[kids[1]].class {
                    Some(c) => {
                        if str_eq(c.as_str(), "weak") {
                            return Some(false);
                        }
                    },
                    None => {},
                }
            }
            None
        },
        Err(_) => None,
    }
}

/// When the walk reaches `div.guts`, Wordnik has the word exactly when its
/// element children are one or more `h3`, `ul` pairs; otherwise it does not
/// have it when `div.guts` has three children, the second a `<p>` of class
/// `weak`.
pub proof fn lemma_wordnik_pairs(nodes: Seq<DomNode>, guts: int)
    requires
        domstroll_spec(
            nodes,
            "wordnik1"@,
            wordnik_path(
                match body_index_spec(nodes) {
                    Some(i) => i,
                    None => 2,
                },
            ),
        ) == Ok::<int, Seq<char>>(guts),
    ensures
        ({
            let t = element_children_spec(nodes, guts);
            let k = children_spec(nodes, guts);
            let pairs = t.len() > 0 && t.len() % 2 == 0 && (forall|i: int|
                0 <= i < t.len() ==> is_element_named(nodes, #[trigger] t[i], if i % 2 == 0 { "h3"@ } else { "ul"@ }));
            &&& (wordnik_spec(nodes) == Some(true) <==> pairs)
            &&& !pairs && k.len() == 3 && is_element_named(nodes, k[1], "p"@) && nodes[k[1]].class is Some
                && nodes[k[1]].class->0@ == "weak"@ ==> wordnik_spec(nodes) == Some(false)
        }),
{
    let t = element_children_spec(nodes, guts);
    if alternating_h3_ul(nodes, t) {
        assert forall|i: int| 0 <= i < t.len() implies is_element_named(nodes, #[trigger] t[i], if i % 2 == 0 { "h3"@ } else { "ul"@ }) by {
            if i % 2 == 0 { assert(is_element_named(nodes, t[i], "h3"@)); } else { assert(is_element_named(nodes, t[i], "ul"@)); }
        }
    }
    if t.len() > 0 && t.len() % 2 == 0 && (forall|i: int|
        0 <= i < t.len() ==> is_element_named(nodes, #[trigger] t[i], if i % 2 == 0 { "h3"@ } else { "ul"@ })) {
        assert forall|i: int| 0 <= i < t.len() implies (if i % 2 == 0 { is_element_named(nodes, #[trigger] t[i], "h3"@) } else { is_element_named(nodes, t[i], "ul"@) }) by {
            assert(is_element_named(nodes, t[i], if i % 2 == 0 { "h3"@ } else { "ul"@ }));
        }
        assert(alternating_h3_ul(nodes, t));
    }
}

} // verus!
