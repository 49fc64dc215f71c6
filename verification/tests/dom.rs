use isaword::dom::{child_count, domstroll, find_body_index, page_dom, DomNode, DomOpts, NodeKind};

const PAGE: &str = "<!DOCTYPE html><html><head><title>t</title></head><body class=\"a b\"><div id=\"main\"><p class=\"msg x\">hello</p><span>x</span></div></body></html>";

#[test]
fn parse_lists_nodes_with_depths() {
    let nodes = page_dom("<p>hi</p>").unwrap();
    // document, html, head, body, p, text
    assert_eq!(nodes.len(), 6);
    assert_eq!(nodes[0].depth, 0);
    assert_eq!(nodes[1].kind, NodeKind::Element);
    assert_eq!(nodes[1].name, "html");
    assert_eq!(nodes[2].name, "head");
    assert_eq!(nodes[3].name, "body");
    assert_eq!(nodes[4].name, "p");
    assert_eq!(nodes[4].depth, 3);
    assert_eq!(nodes[5].kind, NodeKind::Text);
    assert_eq!(nodes[5].text, "hi");
}

#[test]
fn parse_keeps_id_and_class() {
    let nodes = page_dom(PAGE).unwrap();
    let div = nodes.iter().find(|n| n.name == "div").unwrap();
    assert_eq!(div.id.as_deref(), Some("main"));
    let p = nodes.iter().find(|n| n.name == "p").unwrap();
    assert_eq!(p.class.as_deref(), Some("msg x"));
}

#[test]
fn body_is_found_among_the_roots_children() {
    let dom = page_dom(PAGE).unwrap();
    assert_eq!(find_body_index(&dom), Some(1));
}

#[test]
fn body_index_counts_every_node() {
    let dom = vec![
        DomNode::other(0),
        DomNode::element(1, "html", None, None),
        DomNode::text(2, "\n"),
        DomNode::other(2),
        DomNode::element(2, "body", None, None),
    ];
    assert_eq!(find_body_index(&dom), Some(2));
}

#[test]
fn no_body_index_without_a_body() {
    let dom = vec![DomNode::other(0), DomNode::element(1, "html", None, None), DomNode::element(2, "head", None, None)];
    assert_eq!(find_body_index(&dom), None);
}

#[test]
fn page_without_root_element_is_refused() {
    assert!(page_dom("<p>x</p>").is_some());
    let dom = vec![DomNode::other(0)];
    assert!(isaword::dom::root_element(&dom).is_none());
}

#[test]
fn stroll_reaches_the_node_asked_for() {
    let dom = page_dom(PAGE).unwrap();
    let path = [
        (1usize, "body", None),
        (0usize, "div", Some(DomOpts::with_id("main"))),
        (0usize, "p", Some(DomOpts::with_class("msg"))),
    ];
    let p = domstroll("t", false, &dom, &path).unwrap();
    assert_eq!(dom[p].name, "p");
    assert_eq!(child_count(&dom, p), 1);
}

#[test]
fn stroll_reports_an_index_out_of_bounds() {
    let dom = page_dom(PAGE).unwrap();
    let path = [(5usize, "body", None)];
    assert_eq!(
        domstroll("site", false, &dom, &path),
        Err("[domStroll] site#0 not a node (index 5 out of bounds)".to_string())
    );
}

#[test]
fn stroll_reports_a_wrong_tag() {
    let dom = page_dom(PAGE).unwrap();
    let path = [(0usize, "body", None)];
    assert_eq!(
        domstroll("site", false, &dom, &path),
        Err("[domStroll] site#0 not <body> (got <head>)".to_string())
    );
}

#[test]
fn stroll_reports_a_wrong_id() {
    let dom = page_dom(PAGE).unwrap();
    let path = [(1usize, "body", None), (0usize, "div", Some(DomOpts::with_id("other")))];
    assert_eq!(
        domstroll("site", false, &dom, &path),
        Err("[domStroll] site#1 node id is not other (got main)".to_string())
    );
}

#[test]
fn stroll_reports_a_missing_id() {
    let dom = page_dom(PAGE).unwrap();
    let path = [(1usize, "body", None), (0usize, "div", None), (1usize, "span", Some(DomOpts::with_id("s")))];
    assert_eq!(
        domstroll("site", false, &dom, &path),
        Err("[domStroll] site#2 node has no id attribute".to_string())
    );
}

#[test]
fn stroll_reports_a_missing_class() {
    let dom = page_dom(PAGE).unwrap();
    let path = [(1usize, "body", Some(DomOpts::with_class("c")))];
    assert_eq!(
        domstroll("site", false, &dom, &path),
        Err("<body> has no .c class (got: a b)".to_string())
    );
}

#[test]
fn stroll_reports_a_text_node() {
    let dom = page_dom(PAGE).unwrap();
    let path = [(1usize, "body", None), (0usize, "div", None), (0usize, "p", None), (0usize, "b", None)];
    assert_eq!(
        domstroll("site", false, &dom, &path),
        Err("[domStroll] site#3 child at index 0 is not an element node".to_string())
    );
}

#[test]
fn optional_step_stops_at_a_mismatch() {
    let dom = page_dom(PAGE).unwrap();
    let path = [
        (1usize, "body", None),
        (0usize, "div", None),
        (1usize, "span", Some(DomOpts::optional_class("absent"))),
        (0usize, "never", None),
    ];
    let r = domstroll("site", false, &dom, &path).unwrap();
    assert_eq!(dom[r].name, "span");
}

#[test]
fn empty_path_gives_the_root_element() {
    let dom = page_dom(PAGE).unwrap();
    let r = domstroll("site", false, &dom, &[]).unwrap();
    assert_eq!(dom[r].name, "html");
}

#[test]
fn default_options_require_nothing() {
    let o = DomOpts::default();
    assert!(o.id.is_none() && o.cls.is_none() && !o.optional && !o.debug);
}
