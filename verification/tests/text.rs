use isaword::dom::{children_of, element_children, page_dom, DomNode};
use isaword::json::{json_get, json_str_member, JsonValue};
use isaword::text::{
    chars_eq, chars_of, contains_word, decimal_string, is_whitespace, str_contains, str_eq, string_from_chars,
};

#[test]
fn decimal_renderings() {
    assert_eq!(decimal_string(0), "0");
    assert_eq!(decimal_string(7), "7");
    assert_eq!(decimal_string(10), "10");
    assert_eq!(decimal_string(1234), "1234");
    assert_eq!(decimal_string(usize::MAX), usize::MAX.to_string());
}

#[test]
fn characters_round_trip() {
    let cs = chars_of("héllo");
    assert_eq!(cs, vec!['h', 'é', 'l', 'l', 'o']);
    assert_eq!(string_from_chars(&cs), "héllo");
    assert!(chars_eq(&cs, &chars_of("héllo")));
    assert!(!chars_eq(&cs, &chars_of("hello")));
    assert!(str_eq("", ""));
    assert!(!str_eq("a", "ab"));
}

#[test]
fn substring_search() {
    assert!(str_contains("page-template word--C9UPa x", "word--C9UPa"));
    assert!(str_contains("abc", ""));
    assert!(str_contains("abc", "abc"));
    assert!(!str_contains("ab", "abc"));
    assert!(!str_contains("aXbc", "abc"));
}

#[test]
fn whole_word_search() {
    assert!(contains_word("a definitions-page b", "definitions-page"));
    assert!(contains_word("definitions-page", "definitions-page"));
    assert!(contains_word("x\tdefinitions-page\n", "definitions-page"));
    assert!(!contains_word("definitions-pages", "definitions-page"));
    assert!(!contains_word("my-definitions-page", "definitions-page"));
    assert!(contains_word("a\u{3000}b", "b"));
}

#[test]
fn white_space_characters() {
    for c in [' ', '\t', '\n', '\r', '\u{0b}', '\u{0c}', '\u{85}', '\u{a0}', '\u{2003}', '\u{3000}'] {
        assert!(is_whitespace(c), "{:?}", c);
        assert_eq!(is_whitespace(c), c.is_whitespace());
    }
    for c in ['a', '-', '\u{200b}', '\u{0}'] {
        assert!(!is_whitespace(c));
        assert_eq!(is_whitespace(c), c.is_whitespace());
    }
}

#[test]
fn json_members() {
    let v = JsonValue::Object(vec![
        ("name".to_string(), JsonValue::Str("cat".to_string())),
        ("count".to_string(), JsonValue::Number("2".to_string())),
    ]);
    assert!(matches!(json_get(&v, "count"), Some(JsonValue::Number(n)) if n == "2"));
    assert!(json_get(&v, "label").is_none());
    assert_eq!(json_str_member(&v, "name"), "cat");
    assert_eq!(json_str_member(&v, "count"), "");
    assert_eq!(json_str_member(&JsonValue::Null, "name"), "");
}

#[test]
fn children_and_element_children() {
    let dom = page_dom("<div><b>x</b>text<i></i><!-- c --></div>").unwrap();
    let div = dom.iter().position(|n| n.name == "div").unwrap();
    assert_eq!(children_of(&dom, div).len(), 4);
    let els = element_children(&dom, div);
    assert_eq!(els.len(), 2);
    assert_eq!(dom[els[0]].name, "b");
    assert_eq!(dom[els[1]].name, "i");
}

#[test]
fn flat_nodes_give_children_by_depth() {
    let dom = vec![
        DomNode::other(0),
        DomNode::element(1, "html", None, None),
        DomNode::element(2, "a", None, None),
        DomNode::text(3, "x"),
        DomNode::element(2, "b", None, None),
    ];
    assert_eq!(children_of(&dom, 1), vec![2, 4]);
    assert_eq!(children_of(&dom, 2), vec![3]);
    assert_eq!(children_of(&dom, 4), Vec::<usize>::new());
}
