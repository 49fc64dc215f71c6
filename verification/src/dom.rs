//! A plain model of a parsed HTML document, and index-based navigation of it.
//!
//! A document is a sequence of nodes in document (pre-)order; each node
//! records its depth (the number of its ancestors).  The children of a node
//! are the following nodes one level deeper, up to the next node that is not
//! deeper than it.

use vstd::prelude::*;
use vstd::string::*;
use crate::text::{decimal, decimal_string, str_eq, contains_seq, str_contains};

verus! {

/// What kind of node a document node is.
#[derive(Clone, Copy, Debug, PartialEq, Eq, Structural)]
pub enum NodeKind {
    /// An element such as `<div>`.
    Element,
    /// A run of text.
    Text,
    /// Anything else: the document itself, a doctype, a comment, ...
    Other,
}

/// One node of a parsed document.
#[derive(Debug)]
pub struct DomNode {
    /// The number of ancestors of the node (the document node has depth 0).
    pub depth: usize,
    pub kind: NodeKind,
    /// The tag name of an element; empty for other nodes.
    pub name: String,
    /// The `id` attribute of an element, if it has one.
    pub id: Option<String>,
    /// The `class` attribute of an element, if it has one.
    pub class: Option<String>,
    /// The content of a text node; empty for other nodes.
    pub text: String,
}

impl DomNode {
    /// An element node.
    pub fn element(depth: usize, name: &str, id: Option<&str>, class: Option<&str>) -> (n: DomNode)
        ensures
            n.depth == depth,
            n.kind == NodeKind::Element,
            n.name@ == name@,
            n.id matches Some(s) ==> id matches Some(t) && s@ == t@,
            n.id is None <==> id is None,
            n.class matches Some(s) ==> class matches Some(t) && s@ == t@,
            n.class is None <==> class is None,
            n.text@ == Seq::<char>::empty(),
    {
        let id = match id {
            Some(s) => Some(String::from_str(s)),
            None => None,
        };
        let class = match class {
            Some(s) => Some(String::from_str(s)),
            None => None,
        };
        DomNode { depth, kind: NodeKind::Element, name: String::from_str(name), id, class, text: String::new() }
    }

    /// A text node.
    pub fn text(depth: usize, text: &str) -> (n: DomNode)
        ensures
            n.depth == depth,
            n.kind == NodeKind::Text,
            n.name@ == Seq::<char>::empty(),
            n.id is None,
            n.class is None,
            n.text@ == text@,
    {
        DomNode { depth, kind: NodeKind::Text, name: String::new(), id: None, class: None, text: String::from_str(text) }
    }

    /// Any other node (document, doctype, comment, ...).
    pub fn other(depth: usize) -> (n: DomNode)
        ensures
            n.depth == depth,
            n.kind == NodeKind::Other,
            n.name@ == Seq::<char>::empty(),
            n.id is None,
            n.class is None,
            n.text@ == Seq::<char>::empty(),
    {
        DomNode { depth, kind: NodeKind::Other, name: String::new(), id: None, class: None, text: String::new() }
    }
}

/// The nodes, in document order, of the HTML document that `text` parses to.
pub uninterp spec fn parsed_document(text: Seq<char>) -> Seq<DomNode>;

/// Parses a string of HTML as a document.
///
/// Trusted: calls `scraper::Html::parse_document` (an html5ever parse, a
/// function of the input alone) and lists the resulting tree from its root
/// in document order (`descendants`), each node with the number of its
/// ancestors, its kind, and for elements the tag name and the `id` and
/// `class` attributes, for text nodes the text.  The list is named
/// `parsed_document`; nothing more is claimed of it.
#[verifier::external_body]
pub(crate) fn parse_document(text: &str) -> (nodes: Vec<DomNode>)
    ensures
        nodes@ == parsed_document(text@),
{
    let html = scraper::Html::parse_document(text);
    html.tree.root().descendants().map(|n| {
        let depth = n.ancestors().count();
        match n.value() {
            scraper::Node::Element(e) => DomNode::element(depth, e.name(), e.attr("id"), e.attr("class")),
            scraper::Node::Text(t) => DomNode::text(depth, t),
            _ => DomNode::other(depth),
        }
    }).collect()
}

/// The children of node `p`, scanning from position `from`: the nodes one
/// level deeper than `p`, up to the first node not deeper than `p`.
pub open spec fn child_scan(nodes: Seq<DomNode>, p: int, from: int) -> Seq<int>
    decreases nodes.len() - from,
{
    if p < 0 || p >= nodes.len() || from <= p || from >= nodes.len() || nodes[from].depth <= nodes[p].depth {
        Seq::empty()
    } else if nodes[from].depth == nodes[p].depth + 1 {
        seq![from] + child_scan(nodes, p, from + 1)
    } else {
        child_scan(nodes, p, from + 1)
    }
}

/// The positions of the children of node `p`, in order.
pub open spec fn children_spec(nodes: Seq<DomNode>, p: int) -> Seq<int> {
    child_scan(nodes, p, p + 1)
}

proof fn lemma_child_scan_bounds(nodes: Seq<DomNode>, p: int, from: int)
    ensures
        forall|k: int| 0 <= k < child_scan(nodes, p, from).len() ==>
            from <= #[trigger] child_scan(nodes, p, from)[k] < nodes.len()
            && p < child_scan(nodes, p, from)[k],
    decreases nodes.len() - from,
{
    if !(p < 0 || p >= nodes.len() || from <= p || from >= nodes.len() || nodes[from].depth <= nodes[p].depth) {
        lemma_child_scan_bounds(nodes, p, from + 1);
        let rest = child_scan(nodes, p, from + 1);
        if nodes[from].depth == nodes[p].depth + 1 {
            assert forall|k: int| 0 <= k < child_scan(nodes, p, from).len() implies
                from <= #[trigger] child_scan(nodes, p, from)[k] < nodes.len()
                && p < child_scan(nodes, p, from)[k] by {
                if k > 0 {
                    assert(child_scan(nodes, p, from)[k] == rest[k - 1]);
                }
            }
        }
    }
}

/// The children of node `p` lie after it and within the document.
pub proof fn lemma_children_bounds(nodes: Seq<DomNode>, p: int)
    ensures
        forall|k: int| 0 <= k < children_spec(nodes, p).len() ==>
            p < #[trigger] children_spec(nodes, p)[k] < nodes.len(),
{
    lemma_child_scan_bounds(nodes, p, p + 1);
}

/// The positions of the children of node `p`, in order.
pub fn children_of(nodes: &Vec<DomNode>, p: usize) -> (v: Vec<usize>)
    requires
        p < nodes.len(),
    ensures
        v@.len() == children_spec(nodes@, p as int).len(),
        forall|k: int| 0 <= k < v@.len() ==> v@[k] as int == #[trigger] children_spec(nodes@, p as int)[k],
{
    let ghost ns = nodes@;
    let d = nodes[p].depth;
    let mut v: Vec<usize> = Vec::new();
    let mut j: usize = p + 1;
    while j < nodes.len() && nodes[j].depth > d
        invariant
            ns == nodes@,
            p < nodes.len(),
            d == ns[p as int].depth,
            p < j <= nodes.len(),
            forall|k: int| 0 <= k < v@.len() ==> v@[k] as int == (#[trigger] children_spec(ns, p as int)[k]),
            v@.len() + child_scan(ns, p as int, j as int).len() == children_spec(ns, p as int).len(),
            forall|k: int| 0 <= k < child_scan(ns, p as int, j as int).len() ==>
                #[trigger] child_scan(ns, p as int, j as int)[k] == children_spec(ns, p as int)[v@.len() + k],
        decreases nodes.len() - j,
    {
        let ghost scan = child_scan(ns, p as int, j as int);
        assert(scan == (if ns[j as int].depth == d + 1 {
            seq![j as int] + child_scan(ns, p as int, j + 1)
        } else {
            child_scan(ns, p as int, j + 1)
        }));
        if nodes[j].depth - 1 == d {
            assert(scan[0] == j as int);
            assert forall|k: int| 0 <= k < child_scan(ns, p as int, j + 1).len() implies
                #[trigger] child_scan(ns, p as int, j + 1)[k] == children_spec(ns, p as int)[v@.len() + 1 + k] by {
                assert(scan[k + 1] == child_scan(ns, p as int, j + 1)[k]);
            }
            v.push(j);
        } else {
            assert forall|k: int| 0 <= k < child_scan(ns, p as int, j + 1).len() implies
                #[trigger] child_scan(ns, p as int, j + 1)[k] == children_spec(ns, p as int)[v@.len() + k] by {
                assert(scan[k] == child_scan(ns, p as int, j + 1)[k]);
            }
        }
        j = j + 1;
    }
    assert(child_scan(ns, p as int, j as int).len() == 0);
    v
}

} // verus!

verus! {

/// The position, among `kids`, of the first element named `name`.
pub open spec fn first_element_named(nodes: Seq<DomNode>, kids: Seq<int>, name: Seq<char>) -> Option<int>
    decreases kids.len(),
{
    if kids.len() == 0 {
        None
    } else if nodes[kids[0]].kind == NodeKind::Element && nodes[kids[0]].name@ == name {
        Some(0)
    } else {
        match first_element_named(nodes, kids.drop_first(), name) {
            Some(i) => Some(i + 1),
            None => None,
        }
    }
}

/// The position that `first_element_named` finds is a position of `kids`.
pub proof fn lemma_first_element_named_bounds(nodes: Seq<DomNode>, kids: Seq<int>, name: Seq<char>)
    ensures
        first_element_named(nodes, kids, name) matches Some(i) ==> 0 <= i < kids.len(),
    decreases kids.len(),
{
    if kids.len() > 0 {
        lemma_first_element_named_bounds(nodes, kids.drop_first(), name);
    }
}

/// The first element among `kids`, if any.
pub open spec fn first_element(nodes: Seq<DomNode>, kids: Seq<int>) -> Option<int>
    decreases kids.len(),
{
    if kids.len() == 0 {
        None
    } else if nodes[kids[0]].kind == NodeKind::Element {
        Some(kids[0])
    } else {
        first_element(nodes, kids.drop_first())
    }
}

/// The root element of a document (its `<html>` element): the first element
/// child of the document node.
pub open spec fn root_element_spec(nodes: Seq<DomNode>) -> Option<int> {
    if nodes.len() == 0 {
        None
    } else {
        first_element(nodes, children_spec(nodes, 0))
    }
}

/// Whether a document has a root element.
pub open spec fn has_root_spec(nodes: Seq<DomNode>) -> bool {
    root_element_spec(nodes) is Some
}

/// The root element of a document, if it has one.
pub fn root_element(nodes: &Vec<DomNode>) -> (r: Option<usize>)
    ensures
        r matches Some(k) ==> root_element_spec(nodes@) == Some(k as int) && k < nodes.len(),
        r is None ==> root_element_spec(nodes@) is None,
{
    if nodes.len() == 0 {
        return None;
    }
    let kids = children_of(nodes, 0);
    let ghost ks = children_spec(nodes@, 0);
    proof { lemma_children_bounds(nodes@, 0); }
    assert(ks.subrange(0, ks.len() as int) =~= ks);
    let mut i: usize = 0;
    while i < kids.len()
        invariant
            kids@.len() == ks.len(),
            ks == children_spec(nodes@, 0),
            forall|k: int| 0 <= k < kids@.len() ==> kids@[k] as int == #[trigger] ks[k],
            forall|k: int| 0 <= k < ks.len() ==> 0 < #[trigger] ks[k] < nodes@.len(),
            i <= kids.len(),
            first_element(nodes@, ks) == first_element(nodes@, ks.subrange(i as int, ks.len() as int)),
        decreases kids.len() - i,
    {
        let k = kids[i];
        let ghost rest = ks.subrange(i as int, ks.len() as int);
        assert(rest[0] == ks[i as int]);
        assert(rest.drop_first() =~= ks.subrange(i + 1, ks.len() as int));
        if nodes[k].kind == NodeKind::Element {
            return Some(k);
        }
        i = i + 1;
    }
    assert(ks.subrange(i as int, ks.len() as int).len() == 0);
    None
}

/// Whether a document has a root element.
pub fn has_root_element(nodes: &Vec<DomNode>) -> (b: bool)
    ensures
        b == has_root_spec(nodes@),
{
    root_element(nodes).is_some()
}

/// The position, among the root element's children, of the first element
/// named `name`.
pub open spec fn root_child_index_spec(nodes: Seq<DomNode>, name: Seq<char>) -> Option<int> {
    match root_element_spec(nodes) {
        Some(r) => first_element_named(nodes, children_spec(nodes, r), name),
        None => None,
    }
}

/// The position, among the root element's children, of the `<body>` element.
pub open spec fn body_index_spec(nodes: Seq<DomNode>) -> Option<int> {
    root_child_index_spec(nodes, "body"@)
}

/// The position, among the root element's children, of the first element
/// named `name`.
pub fn find_root_child_index(html: &Vec<DomNode>, name: &str) -> (r: Option<usize>)
    requires
        has_root_spec(html@),
    ensures
        r matches Some(i) ==> root_child_index_spec(html@, name@) == Some(i as int),
        r is None ==> root_child_index_spec(html@, name@) is None,
{
    let root = root_element(html).unwrap();
    let kids = children_of(html, root);
    let ghost ks = children_spec(html@, root as int);
    proof { lemma_children_bounds(html@, root as int); }
    assert(ks.subrange(0, ks.len() as int) =~= ks);
    let mut i: usize = 0;
    while i < kids.len()
        invariant
            kids@.len() == ks.len(),
            forall|k: int| 0 <= k < kids@.len() ==> kids@[k] as int == #[trigger] ks[k],
            forall|k: int| 0 <= k < ks.len() ==> 0 < #[trigger] ks[k] < html@.len(),
            ks == children_spec(html@, root as int),
            root_element_spec(html@) == Some(root as int),
            i <= kids.len(),
            first_element_named(html@, ks, name@) == (match first_element_named(html@, ks.subrange(i as int, ks.len() as int), name@) {
                Some(j) => Some(j + i),
                None => None,
            }),
        decreases kids.len() - i,
    {
        let k = kids[i];
        let ghost rest = ks.subrange(i as int, ks.len() as int);
        assert(rest[0] == ks[i as int]);
        assert(rest.drop_first() =~= ks.subrange(i + 1, ks.len() as int));
        if html[k].kind == NodeKind::Element && str_eq(html[k].name.as_str(), name) {
            return Some(i);
        }
        i = i + 1;
    }
    assert(ks.subrange(i as int, ks.len() as int).len() == 0);
    None
}

/// Find the body element's index in the root's children.
///
/// Since different websites have different amounts of whitespace/comments,
/// the body element can be at different indices; this finds it.
pub fn find_body_index(html: &Vec<DomNode>) -> (r: Option<usize>)
    requires
        has_root_spec(html@),
    ensures
        r matches Some(i) ==> body_index_spec(html@) == Some(i as int),
        r is None ==> body_index_spec(html@) is None,
{
    find_root_child_index(html, "body")
}

} // verus!

verus! {

/// Options for DOM element validation in `domstroll`: the `id` the element
/// must have, a class its `class` attribute must contain, whether a
/// mismatch ends the walk successfully (`optional`) rather than failing,
/// and whether to print debug output.
#[derive(Debug, Clone)]
pub struct DomOpts {
    pub id: Option<String>,
    pub cls: Option<String>,
    pub optional: bool,
    pub debug: bool,
}

impl Default for DomOpts {
    fn default() -> (o: Self)
        ensures
            o.id is None,
            o.cls is None,
            !o.optional,
            !o.debug,
    {
        DomOpts { id: None, cls: None, optional: false, debug: false }
    }
}

impl DomOpts {
    /// Options requiring the given `id`.
    pub fn with_id(id: &str) -> (o: DomOpts)
        ensures
            o.id matches Some(s) && s@ == id@,
            o.cls is None,
            !o.optional,
            !o.debug,
    {
        DomOpts { id: Some(String::from_str(id)), cls: None, optional: false, debug: false }
    }

    /// Options requiring the given class.
    pub fn with_class(cls: &str) -> (o: DomOpts)
        ensures
            o.id is None,
            o.cls matches Some(s) && s@ == cls@,
            !o.optional,
            !o.debug,
    {
        DomOpts { id: None, cls: Some(String::from_str(cls)), optional: false, debug: false }
    }

    /// Options looking for the given class, where its absence ends the walk
    /// successfully.
    pub fn optional_class(cls: &str) -> (o: DomOpts)
        ensures
            o.id is None,
            o.cls matches Some(s) && s@ == cls@,
            o.optional,
            !o.debug,
    {
        DomOpts { id: None, cls: Some(String::from_str(cls)), optional: true, debug: false }
    }
}

/// One step of a walk through a document.
pub enum Stroll {
    /// Go on from this node.
    Next(int),
    /// Stop here: the walk succeeds with this node.
    Stop(int),
    /// The walk fails with this message.
    Fail(Seq<char>),
}

/// The plain content of one step of a walk: the child index, the tag name,
/// the required `id` and class, and whether a mismatch ends the walk
/// successfully.
pub struct StepSpec {
    pub index: int,
    pub tag: Seq<char>,
    pub id: Option<Seq<char>>,
    pub cls: Option<Seq<char>>,
    pub optional: bool,
}

/// The plain content of a path entry.
pub open spec fn step_view(e: (usize, &str, Option<DomOpts>)) -> StepSpec {
    StepSpec {
        index: e.0 as int,
        tag: e.1@,
        id: match e.2 {
            Some(o) => match o.id {
                Some(s) => Some(s@),
                None => None,
            },
            None => None,
        },
        cls: match e.2 {
            Some(o) => match o.cls {
                Some(s) => Some(s@),
                None => None,
            },
            None => None,
        },
        optional: match e.2 {
            Some(o) => o.optional,
            None => false,
        },
    }
}

/// The plain content of a path.
pub open spec fn path_view(path: Seq<(usize, &str, Option<DomOpts>)>) -> Seq<StepSpec> {
    path.map_values(|e: (usize, &str, Option<DomOpts>)| step_view(e))
}

/// A step that requires nothing but the tag name.
pub open spec fn plain_step(index: int, tag: Seq<char>) -> StepSpec {
    StepSpec { index, tag, id: None, cls: None, optional: false }
}

/// A step that requires an `id`.
pub open spec fn id_step(index: int, tag: Seq<char>, id: Seq<char>) -> StepSpec {
    StepSpec { index, tag, id: Some(id), cls: None, optional: false }
}

/// A step that requires a class.
pub open spec fn class_step(index: int, tag: Seq<char>, cls: Seq<char>) -> StepSpec {
    StepSpec { index, tag, id: None, cls: Some(cls), optional: false }
}

/// A step that looks for a class and ends the walk successfully on a mismatch.
pub open spec fn optional_class_step(index: int, tag: Seq<char>, cls: Seq<char>) -> StepSpec {
    StepSpec { index, tag, id: None, cls: Some(cls), optional: true }
}

/// The `class` attribute of a node, or the empty string.
pub open spec fn class_or_empty(n: DomNode) -> Seq<char> {
    match n.class {
        Some(c) => c@,
        None => Seq::empty(),
    }
}

/// One step of `domstroll`: from node `cur`, take child number `st.index`,
/// which must be an element named `st.tag` meeting the step's requirements.
pub open spec fn stroll_step(nodes: Seq<DomNode>, site: Seq<char>, step: int, cur: int, st: StepSpec) -> Stroll {
    let kids = children_spec(nodes, cur);
    let head = "[domStroll] "@ + site + "#"@ + decimal(step as nat);
    if st.index >= kids.len() {
        Stroll::Fail(head + " not a node (index "@ + decimal(st.index as nat) + " out of bounds)"@)
    } else {
        let c = kids[st.index];
        let n = nodes[c];
        if n.kind != NodeKind::Element {
            Stroll::Fail(head + " child at index "@ + decimal(st.index as nat) + " is not an element node"@)
        } else if n.name@ != st.tag {
            if st.optional {
                Stroll::Stop(c)
            } else {
                Stroll::Fail(head + " not <"@ + st.tag + "> (got <"@ + n.name@ + ">)"@)
            }
        } else if st.id is Some && n.id is None {
            Stroll::Fail(head + " node has no id attribute"@)
        } else if st.id is Some && n.id->0@ != st.id->0 {
            if st.optional {
                Stroll::Stop(c)
            } else {
                Stroll::Fail(head + " node id is not "@ + st.id->0 + " (got "@ + n.id->0@ + ")"@)
            }
        } else if st.cls is Some && !contains_seq(class_or_empty(n), st.cls->0) {
            if st.optional {
                Stroll::Stop(c)
            } else {
                Stroll::Fail("<"@ + st.tag + "> has no ."@ + st.cls->0 + " class (got: "@ + class_or_empty(n) + ")"@)
            }
        } else {
            Stroll::Next(c)
        }
    }
}

/// The walk described by `path` from step `step` on, standing at node `cur`.
pub open spec fn stroll_from(nodes: Seq<DomNode>, site: Seq<char>, path: Seq<StepSpec>, step: int, cur: int) -> Result<int, Seq<char>>
    decreases path.len() - step,
{
    if step < 0 || step >= path.len() {
        Ok(cur)
    } else {
        match stroll_step(nodes, site, step, cur, path[step]) {
            Stroll::Next(c) => stroll_from(nodes, site, path, step + 1, c),
            Stroll::Stop(c) => Ok(c),
            Stroll::Fail(m) => Err(m),
        }
    }
}

/// The node that `domstroll` reaches from the root element along `path`, or
/// the message with which it fails.
pub open spec fn domstroll_spec(nodes: Seq<DomNode>, site: Seq<char>, path: Seq<StepSpec>) -> Result<int, Seq<char>> {
    stroll_from(nodes, site, path, 0, root_element_spec(nodes)->0)
}

/// The message prefix `"[domStroll] SITE#STEP"`.
fn stroll_head(site: &str, step: usize) -> (s: String)
    ensures
        s@ == "[domStroll] "@ + site@ + "#"@ + decimal(step as nat),
{
    let mut s = String::new();
    s.append("[domStroll] ");
    s.append(site);
    s.append("#");
    let d = decimal_string(step);
    s.append(d.as_str());
    s
}

/// One step of the walk, as `stroll_step` describes it.
fn stroll_one(
    nodes: &Vec<DomNode>,
    site: &str,
    step: usize,
    cur: usize,
    index: usize,
    tag: &str,
    opts: &Option<DomOpts>,
) -> (r: Result<(usize, bool), String>)
    requires
        cur < nodes.len(),
    ensures
        match (r, stroll_step(nodes@, site@, step as int, cur as int, step_view((index, tag, *opts)))) {
            (Ok((c, false)), Stroll::Next(d)) => c as int == d && c < nodes.len(),
            (Ok((c, true)), Stroll::Stop(d)) => c as int == d && c < nodes.len(),
            (Err(m), Stroll::Fail(e)) => m@ == e,
            _ => false,
        },
{
    let kids = children_of(nodes, cur);
    proof { lemma_children_bounds(nodes@, cur as int); }
    if index >= kids.len() {
        let mut m = stroll_head(site, step);
        m.append(" not a node (index ");
        let d = decimal_string(index);
        m.append(d.as_str());
        m.append(" out of bounds)");
        return Err(m);
    }
    let c = kids[index];
    let node = &nodes[c];
    let optional = match opts {
        Some(o) => o.optional,
        None => false,
    };
    if node.kind != NodeKind::Element {
        let mut m = stroll_head(site, step);
        m.append(" child at index ");
        let d = decimal_string(index);
        m.append(d.as_str());
        m.append(" is not an element node");
        return Err(m);
    }
    if !str_eq(node.name.as_str(), tag) {
        if optional {
            return Ok((c, true));
        }
        let mut m = stroll_head(site, step);
        m.append(" not <");
        m.append(tag);
        m.append("> (got <");
        m.append(node.name.as_str());
        m.append(">)");
        return Err(m);
    }
    let want_id: Option<&String> = match opts {
        Some(o) => match &o.id {
            Some(s) => Some(s),
            None => None,
        },
        None => None,
    };
    if let Some(eid) = want_id {
        match &node.id {
            None => {
                let mut m = stroll_head(site, step);
                m.append(" node has no id attribute");
                return Err(m);
            },
            Some(aid) => {
                if !str_eq(aid.as_str(), eid.as_str()) {
                    if optional {
                        return Ok((c, true));
                    }
                    let mut m = stroll_head(site, step);
                    m.append(" node id is not ");
                    m.append(eid.as_str());
                    m.append(" (got ");
                    m.append(aid.as_str());
                    m.append(")");
                    return Err(m);
                }
            },
        }
    }
    let want_cls: Option<&String> = match opts {
        Some(o) => match &o.cls {
            Some(s) => Some(s),
            None => None,
        },
        None => None,
    };
    if let Some(ecls) = want_cls {
        let actual: &str = match &node.class {
            Some(s) => s.as_str(),
            None => "",
        };
        proof { reveal_strlit(""); }
        assert(actual@ == class_or_empty(nodes@[c as int]));
        if !str_contains(actual, ecls.as_str()) {
            if optional {
                return Ok((c, true));
            }
            let mut m = String::new();
            m.append("<");
            m.append(tag);
            m.append("> has no .");
            m.append(ecls.as_str());
            m.append(" class (got: ");
            m.append(actual);
            m.append(")");
            return Err(m);
        }
    }
    Ok((c, false))
}

/// DOM tree walker: navigates the document along `path` with assertions.
///
/// Starting at the root element, each step `(index, tag, options)` takes
/// child number `index` (counting every node: elements, text, comments)
/// and checks that it is an element named `tag` whose `id` and `class` meet
/// the options.  A failed check ends the walk with an error message, or,
/// when the options mark the step optional, successfully at that child.
/// Returns the position of the node reached.
pub fn domstroll(
    site: &str,
    debug: bool,
    html: &Vec<DomNode>,
    path: &[(usize, &str, Option<DomOpts>)],
) -> (r: Result<usize, String>)
    requires
        has_root_spec(html@),
    ensures
        match (r, domstroll_spec(html@, site@, path_view(path@))) {
            (Ok(c), Ok(d)) => c as int == d && c < html.len(),
            (Err(m), Err(e)) => m@ == e,
            _ => false,
        },
{
    let root = root_element(html).unwrap();
    let mut cur = root;
    let mut step: usize = 0;
    while step < path.len()
        invariant
            cur < html.len(),
            step <= path.len(),
            domstroll_spec(html@, site@, path_view(path@)) == stroll_from(html@, site@, path_view(path@), step as int, cur as int),
        decreases path.len() - step,
    {
        let entry = &path[step];
        assert(path_view(path@)[step as int] == step_view(path@[step as int]));
        let r = stroll_one(html, site, step, cur, entry.0, entry.1, &entry.2);
        match r {
            Ok((c, stop)) => {
                if stop {
                    return Ok(c);
                }
                cur = c;
            },
            Err(m) => {
                return Err(m);
            },
        }
        step = step + 1;
    }
    Ok(cur)
}

} // verus!

verus! {

/// The number of children of node `p`.
pub fn child_count(nodes: &Vec<DomNode>, p: usize) -> (n: usize)
    requires
        p < nodes.len(),
    ensures
        n == children_spec(nodes@, p as int).len(),
{
    children_of(nodes, p).len()
}

/// Whether node `k` is an element with tag name `name`.
pub open spec fn is_element_named(nodes: Seq<DomNode>, k: int, name: Seq<char>) -> bool {
    0 <= k < nodes.len() && nodes[k].kind == NodeKind::Element && nodes[k].name@ == name
}

/// Whether node `k` is an element with tag name `name`.
pub fn element_named(nodes: &Vec<DomNode>, k: usize, name: &str) -> (b: bool)
    ensures
        b == is_element_named(nodes@, k as int, name@),
{
    k < nodes.len() && nodes[k].kind == NodeKind::Element && str_eq(nodes[k].name.as_str(), name)
}

/// The element positions among `kids`, in order.
pub open spec fn elements_among(nodes: Seq<DomNode>, kids: Seq<int>) -> Seq<int>
    decreases kids.len(),
{
    if kids.len() == 0 {
        Seq::empty()
    } else {
        let rest = elements_among(nodes, kids.drop_last());
        if 0 <= kids.last() < nodes.len() && nodes[kids.last()].kind == NodeKind::Element {
            rest.push(kids.last())
        } else {
            rest
        }
    }
}

/// The element children of node `p`.
pub open spec fn element_children_spec(nodes: Seq<DomNode>, p: int) -> Seq<int> {
    elements_among(nodes, children_spec(nodes, p))
}

proof fn lemma_elements_among_bounds(nodes: Seq<DomNode>, kids: Seq<int>)
    requires
        forall|k: int| 0 <= k < kids.len() ==> 0 <= #[trigger] kids[k] < nodes.len(),
    ensures
        forall|k: int| 0 <= k < elements_among(nodes, kids).len() ==>
            0 <= #[trigger] elements_among(nodes, kids)[k] < nodes.len()
            && nodes[elements_among(nodes, kids)[k]].kind == NodeKind::Element,
    decreases kids.len(),
{
    if kids.len() > 0 {
        lemma_elements_among_bounds(nodes, kids.drop_last());
    }
}

/// The element children of node `p` lie within the document and are elements.
pub proof fn lemma_element_children(nodes: Seq<DomNode>, p: int)
    ensures
        forall|k: int| 0 <= k < element_children_spec(nodes, p).len() ==>
            0 <= #[trigger] element_children_spec(nodes, p)[k] < nodes.len()
            && nodes[element_children_spec(nodes, p)[k]].kind == NodeKind::Element,
{
    lemma_children_bounds(nodes, p);
    lemma_elements_among_bounds(nodes, children_spec(nodes, p));
}

/// The positions of the element children of node `p`, in order.
pub fn element_children(nodes: &Vec<DomNode>, p: usize) -> (v: Vec<usize>)
    requires
        p < nodes.len(),
    ensures
        v@.len() == element_children_spec(nodes@, p as int).len(),
        forall|k: int| 0 <= k < v@.len() ==> v@[k] as int == #[trigger] element_children_spec(nodes@, p as int)[k],
{
    let kids = children_of(nodes, p);
    let ghost ks = children_spec(nodes@, p as int);
    proof { lemma_children_bounds(nodes@, p as int); }
    let mut v: Vec<usize> = Vec::new();
    let mut i: usize = 0;
    while i < kids.len()
        invariant
            kids@.len() == ks.len(),
            forall|k: int| 0 <= k < kids@.len() ==> kids@[k] as int == #[trigger] ks[k],
            forall|k: int| 0 <= k < ks.len() ==> p < #[trigger] ks[k] < nodes@.len(),
            i <= kids.len(),
            v@.len() == elements_among(nodes@, ks.take(i as int)).len(),
            forall|k: int| 0 <= k < v@.len() ==> v@[k] as int == #[trigger] elements_among(nodes@, ks.take(i as int))[k],
        decreases kids.len() - i,
    {
        let k = kids[i];
        assert(ks.take(i + 1).drop_last() =~= ks.take(i as int));
        assert(ks.take(i + 1).last() == ks[i as int]);
        if nodes[k].kind == NodeKind::Element {
            v.push(k);
        }
        i = i + 1;
    }
    assert(ks.take(kids.len() as int) =~= ks);
    v
}

/// The document that a page parses to, when it has a root element.
pub open spec fn page_dom_spec(page: Seq<char>) -> Option<Seq<DomNode>> {
    if has_root_spec(parsed_document(page)) {
        Some(parsed_document(page))
    } else {
        None
    }
}

/// Parses a page; `None` when the document has no root element (which the
/// HTML parser does not produce, and on which the checkers would panic).
pub fn page_dom(page: &str) -> (r: Option<Vec<DomNode>>)
    ensures
        match r {
            Some(d) => page_dom_spec(page@) == Some(d@),
            None => page_dom_spec(page@) is None,
        },
{
    let nodes = parse_document(page);
    if has_root_element(&nodes) {
        Some(nodes)
    } else {
        None
    }
}

} // verus!

verus! {

/// The `class` attribute of node `k`, or the empty string.
pub fn class_of(nodes: &Vec<DomNode>, k: usize) -> (s: &str)
    requires
        k < nodes.len(),
    ensures
        s@ == class_or_empty(nodes@[k as int]),
{
    match &nodes[k].class {
        Some(c) => c.as_str(),
        None => {
            proof { reveal_strlit(""); }
            ""
        },
    }
}

/// The first, among `kids`, `<div>` element whose `class` attribute contains
/// `cls`.
pub open spec fn first_div_with_class(nodes: Seq<DomNode>, kids: Seq<int>, cls: Seq<char>) -> Option<int>
    decreases kids.len(),
{
    if kids.len() == 0 {
        None
    } else if is_element_named(nodes, kids[0], "div"@) && nodes[kids[0]].class is Some
        && contains_seq(nodes[kids[0]].class->0@, cls) {
        Some(kids[0])
    } else {
        first_div_with_class(nodes, kids.drop_first(), cls)
    }
}

/// The first element child of node `p` that is a `<div>` whose `class`
/// attribute contains `cls`.
pub fn child_div_with_class(nodes: &Vec<DomNode>, p: usize, cls: &str) -> (r: Option<usize>)
    requires
        p < nodes.len(),
    ensures
        match r {
            Some(k) => first_div_with_class(nodes@, element_children_spec(nodes@, p as int), cls@) == Some(k as int)
                && k < nodes.len(),
            None => first_div_with_class(nodes@, element_children_spec(nodes@, p as int), cls@) is None,
        },
{
    let kids = element_children(nodes, p);
    let ghost ks = element_children_spec(nodes@, p as int);
    proof { lemma_element_children(nodes@, p as int); }
    assert(ks.subrange(0, ks.len() as int) =~= ks);
    let mut i: usize = 0;
    while i < kids.len()
        invariant
            kids@.len() == ks.len(),
            ks == element_children_spec(nodes@, p as int),
            forall|k: int| 0 <= k < kids@.len() ==> kids@[k] as int == #[trigger] ks[k],
            forall|k: int| 0 <= k < ks.len() ==> 0 <= #[trigger] ks[k] < nodes@.len(),
            i <= kids.len(),
            first_div_with_class(nodes@, ks, cls@) == first_div_with_class(nodes@, ks.subrange(i as int, ks.len() as int), cls@),
        decreases kids.len() - i,
    {
        let k = kids[i];
        let ghost rest = ks.subrange(i as int, ks.len() as int);
        assert(rest[0] == ks[i as int]);
        assert(rest.drop_first() =~= ks.subrange(i + 1, ks.len() as int));
        if element_named(nodes, k, "div") {
            match &nodes[k].class {
                Some(c) => {
                    if str_contains(c.as_str(), cls) {
                        return Some(k);
                    }
                },
                None => {},
            }
        }
        i = i + 1;
    }
    assert(ks.subrange(i as int, ks.len() as int).len() == 0);
    None
}

} // verus!
