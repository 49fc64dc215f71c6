use isaword::checkers::ahd::ahd_verdict;
use isaword::checkers::cambridge::{cambridge_verdict, is_redirect_status};
use isaword::checkers::dictcom::dictcom_verdict;
use isaword::checkers::mw::mw_verdict;
use isaword::checkers::etym::{etym_fetch_failed, etym_words_verdict};
use isaword::checkers::longman::longman_verdict;
use isaword::checkers::oed::oed_verdict;
use isaword::checkers::urban::urban_verdict;
use isaword::checkers::wikt::{wikt_code, wikt_result};
use isaword::checkers::wordnik::wordnik_verdict;
use isaword::checkers::{checker_result, Dictionary};
use isaword::dom::DomNode;
use isaword::json::JsonValue;

enum T {
    E(&'static str, Option<&'static str>, Option<&'static str>, Vec<T>),
    X,
    C,
}

fn el(name: &'static str, kids: Vec<T>) -> T {
    T::E(name, None, None, kids)
}

fn with_id(name: &'static str, id: &'static str, kids: Vec<T>) -> T {
    T::E(name, Some(id), None, kids)
}

fn with_class(name: &'static str, class: &'static str, kids: Vec<T>) -> T {
    T::E(name, None, Some(class), kids)
}

/// `n` text nodes, then `t`.
fn after(n: usize, t: T) -> Vec<T> {
    let mut v: Vec<T> = (0..n).map(|_| T::X).collect();
    v.push(t);
    v
}

fn flatten(t: &T, depth: usize, out: &mut Vec<DomNode>) {
    match t {
        T::E(name, id, class, kids) => {
            out.push(DomNode::element(depth, name, *id, *class));
            for k in kids {
                flatten(k, depth + 1, out);
            }
        }
        T::X => out.push(DomNode::text(depth, "\n")),
        T::C => out.push(DomNode::other(depth)),
    }
}

fn doc(root: T) -> Vec<DomNode> {
    let mut v = vec![DomNode::other(0)];
    flatten(&root, 1, &mut v);
    v
}

fn ahd_page(results: Vec<T>) -> Vec<DomNode> {
    let results = with_id("div", "results", results);
    let container = with_class("div", "container3", after(1, results));
    let content = with_id("div", "content", after(2, container));
    let body = el("body", after(3, content));
    doc(el("html", vec![el("head", vec![]), T::X, body]))
}

#[test]
fn ahd_found_when_results_start_with_a_table_in_fours() {
    let dom = ahd_page(vec![el("table", vec![]), el("hr", vec![]), el("span", vec![]), T::C]);
    assert_eq!(ahd_verdict(&dom), Some(true));
}

#[test]
fn ahd_not_found_when_results_are_one_text() {
    let dom = ahd_page(vec![T::X]);
    assert_eq!(ahd_verdict(&dom), Some(false));
}

#[test]
fn ahd_unknown_on_other_results() {
    let dom = ahd_page(vec![el("p", vec![])]);
    assert_eq!(ahd_verdict(&dom), None);
    let dom = ahd_page(vec![el("table", vec![]), el("hr", vec![])]);
    assert_eq!(ahd_verdict(&dom), None);
}

#[test]
fn ahd_unknown_when_the_walk_fails() {
    let dom = doc(el("html", vec![el("head", vec![]), el("body", vec![])]));
    assert_eq!(ahd_verdict(&dom), None);
}

#[test]
fn longman_found_when_head_has_the_metadata_class() {
    let dom = doc(el("html", vec![with_class("head", "page metadata", vec![]), T::X, el("body", vec![])]));
    assert_eq!(longman_verdict(&dom), Some(true));
}

#[test]
fn longman_not_found_when_head_lacks_it() {
    let dom = doc(el("html", vec![el("head", vec![]), el("body", vec![])]));
    assert_eq!(longman_verdict(&dom), Some(false));
    let dom = doc(el("html", vec![with_class("head", "meta", vec![]), el("body", vec![])]));
    assert_eq!(longman_verdict(&dom), Some(false));
    let dom = doc(el("html", vec![el("body", vec![])]));
    assert_eq!(longman_verdict(&dom), Some(false));
}

fn wordnik_page(guts: Vec<T>) -> Vec<DomNode> {
    let guts = with_class("div", "guts", guts);
    let define = with_id("div", "define", after(3, guts));
    let left = with_class("div", "module-2columnLeft", after(1, define));
    let row = with_class("div", "module-row", after(1, left));
    let content = with_class("div", "content", after(7, row));
    let page = with_class("div", "word_page", after(1, content));
    let body = el("body", after(3, page));
    doc(el("html", vec![el("head", vec![]), T::X, body]))
}

#[test]
fn wordnik_found_on_alternating_headings_and_lists() {
    let dom = wordnik_page(vec![el("h3", vec![]), T::X, el("ul", vec![]), el("h3", vec![]), el("ul", vec![])]);
    assert_eq!(wordnik_verdict(&dom), Some(true));
}

#[test]
fn wordnik_not_found_on_a_weak_paragraph() {
    let dom = wordnik_page(vec![T::X, with_class("p", "weak", vec![]), T::X]);
    assert_eq!(wordnik_verdict(&dom), Some(false));
}

#[test]
fn wordnik_needs_complete_pairs() {
    let dom = wordnik_page(vec![el("h3", vec![])]);
    assert_eq!(wordnik_verdict(&dom), None);
    let dom = wordnik_page(vec![el("h3", vec![]), el("ul", vec![]), el("h3", vec![])]);
    assert_eq!(wordnik_verdict(&dom), None);
}

#[test]
fn wordnik_unknown_otherwise() {
    let dom = wordnik_page(vec![el("h3", vec![]), el("h3", vec![])]);
    assert_eq!(wordnik_verdict(&dom), None);
}

#[test]
fn etym_one_matching_section() {
    let (r, msg) = etym_words_verdict("cat", "https://etymonline.com/word/cat", &vec!["Cat".to_string()]);
    assert_eq!(r, Some(true));
    assert_eq!(msg, "[there is 1 word section.](https://etymonline.com/word/cat)");
}

#[test]
fn etym_several_sections_one_matching() {
    let words = vec!["cat".to_string(), "cat".to_string(), "CAT".to_string()];
    let (r, msg) = etym_words_verdict("cat", "u", &words);
    assert_eq!(r, Some(true));
    assert_eq!(msg, "[there are 3 word sections.](u)\nat least one of 'cat', 'CAT' matches 'cat'.");
}

#[test]
fn etym_one_section_not_matching() {
    let (r, msg) = etym_words_verdict("cat", "u", &vec!["dog".to_string()]);
    assert_eq!(r, Some(false));
    assert_eq!(msg, "[there is 1 word section.](u)\nbut 'dog' does not match 'cat'!");
}

#[test]
fn etym_no_section_matching() {
    let (r, msg) = etym_words_verdict("cat", "u", &vec!["dog".to_string(), "cow".to_string()]);
    assert_eq!(r, Some(false));
    assert_eq!(msg, "[there are 2 word sections.](u)\nbut none of 'dog', 'cow' match 'cat'!");
    let (r, msg) = etym_words_verdict("cat", "u", &vec![]);
    assert_eq!(r, Some(false));
    assert_eq!(msg, "[there are 0 word sections.](u)\nbut none of  match 'cat'!");
}

#[test]
fn etym_failure_message() {
    let (r, msg) = etym_fetch_failed();
    assert_eq!(r, None);
    assert_eq!(msg, "An error occurred while fetching data.");
}

fn st(x: &str) -> JsonValue {
    JsonValue::Str(x.to_string())
}

fn obj(members: Vec<(&str, JsonValue)>) -> Option<JsonValue> {
    Some(JsonValue::Object(members.into_iter().map(|(k, v)| (k.to_string(), v)).collect()))
}

fn inner(v: Option<JsonValue>) -> JsonValue {
    v.unwrap()
}

#[test]
fn urban_verdicts() {
    assert_eq!(urban_verdict(&obj(vec![("list", JsonValue::Array(vec![JsonValue::Null]))])), Some(true));
    assert_eq!(urban_verdict(&obj(vec![("list", JsonValue::Array(vec![]))])), Some(false));
    assert_eq!(urban_verdict(&obj(vec![("list", inner(obj(vec![])))])), None);
    assert_eq!(urban_verdict(&obj(vec![("tags", JsonValue::Array(vec![]))])), None);
    assert_eq!(urban_verdict(&Some(JsonValue::Array(vec![]))), None);
    assert_eq!(urban_verdict(&None), None);
}

#[test]
fn oed_verdicts() {
    let data = Some(JsonValue::Array(vec![
        inner(obj(vec![("name", st("cats")), ("label", st("cat, n."))])),
        inner(obj(vec![("name", st("x")), ("label", st("cat"))])),
    ]));
    assert_eq!(oed_verdict("cat", &data), Some(true));
    assert_eq!(oed_verdict("cats", &data), Some(true));
    assert_eq!(oed_verdict("Cat", &data), Some(false));
    assert_eq!(oed_verdict("dog", &data), Some(false));
    let counted = Some(JsonValue::Array(vec![inner(obj(vec![("count", JsonValue::Number("3".to_string()))]))]));
    assert_eq!(oed_verdict("", &counted), Some(true));
    let numbered = Some(JsonValue::Array(vec![inner(obj(vec![("name", JsonValue::Number("7".to_string()))]))]));
    assert_eq!(oed_verdict("7", &numbered), Some(false));
    assert_eq!(oed_verdict("cat", &obj(vec![("name", st("cat"))])), None);
    assert_eq!(oed_verdict("cat", &None), None);
}

#[test]
fn wiktionary_codes() {
    let page = |members: Vec<(&str, JsonValue)>| inner(obj(members));
    let found = obj(vec![("query", page(vec![("pages", page(vec![("123", page(vec![("pageid", JsonValue::Number("123".to_string()))]))]))]))]);
    assert_eq!(wikt_code(&found), Some(1));
    let missing = obj(vec![("query", page(vec![("pages", page(vec![("-1", page(vec![("missing", st(""))]))]))]))]);
    assert_eq!(wikt_code(&missing), Some(0));
    let two = obj(vec![("query", page(vec![("pages", page(vec![("1", page(vec![])), ("2", page(vec![]))]))]))]);
    assert_eq!(wikt_code(&two), None);
    let odd = obj(vec![("query", page(vec![("pages", page(vec![("1", page(vec![("title", st("x"))]))]))]))]);
    assert_eq!(wikt_code(&odd), None);
    assert_eq!(wikt_code(&Some(JsonValue::Array(vec![]))), None);
    assert_eq!(wikt_code(&None), None);
}

#[test]
fn wiktionary_results() {
    assert_eq!(wikt_result(Some(1)), Some(true));
    assert_eq!(wikt_result(Some(0)), Some(false));
    assert_eq!(wikt_result(Some(2)), None);
    assert_eq!(wikt_result(None), None);
}

#[test]
fn redirect_statuses() {
    assert!(!is_redirect_status(200));
    assert!(is_redirect_status(300));
    assert!(is_redirect_status(301));
    assert!(is_redirect_status(399));
    assert!(!is_redirect_status(400));
    assert!(!is_redirect_status(299));
}

#[test]
fn cambridge_found_unless_redirected() {
    assert_eq!(cambridge_verdict(Some(200)), Some(true));
    assert_eq!(cambridge_verdict(Some(302)), Some(false));
    assert_eq!(cambridge_verdict(Some(404)), Some(true));
    assert_eq!(cambridge_verdict(None), None);
}

#[test]
fn checker_result_names_the_dictionary() {
    let r = checker_result(Dictionary::UrbanDictionary, Some(true));
    assert_eq!(r.name, "Urban Dictionary");
    assert_eq!(r.result, Some(true));
    assert!(r.is_community);
    let r = checker_result(Dictionary::Oed, None);
    assert_eq!(r.name, "OED");
    assert!(!r.is_community);
}

fn mw_page(body_class: &'static str, main: Vec<T>) -> Vec<DomNode> {
    let main = with_class("div", "main-container", main);
    let outer = with_class("div", "outer-container x", vec![T::X, main]);
    let body = with_class("body", body_class, vec![el("script", vec![]), outer]);
    doc(el("html", vec![el("head", vec![]), T::X, body]))
}

#[test]
fn mw_found_with_the_redesign_container() {
    let dom = mw_page("a definitions-page b", vec![with_class("div", "redesign-container", vec![])]);
    assert_eq!(mw_verdict(&dom), Some(true));
}

#[test]
fn mw_not_found_without_it() {
    let dom = mw_page("definitions-page", vec![el("div", vec![])]);
    assert_eq!(mw_verdict(&dom), Some(false));
}

#[test]
fn mw_not_found_off_a_definitions_page() {
    let dom = mw_page("definitions-pages", vec![with_class("div", "redesign-container", vec![])]);
    assert_eq!(mw_verdict(&dom), Some(false));
}

#[test]
fn mw_unknown_without_a_body_in_place() {
    let dom = doc(el("html", vec![el("head", vec![])]));
    assert_eq!(mw_verdict(&dom), None);
}

fn dictcom_page(main: Vec<T>) -> Vec<DomNode> {
    let main = el("main", main);
    let site = with_class("div", "dictionary-site", vec![T::X, main]);
    let root = with_id("div", "root", vec![site]);
    doc(el("html", vec![el("head", vec![]), el("body", vec![T::X, root])]))
}

#[test]
fn dictcom_verdicts() {
    assert_eq!(dictcom_verdict(&dictcom_page(vec![T::X, T::X, T::X, T::X])), Some(true));
    assert_eq!(dictcom_verdict(&dictcom_page(vec![T::X, T::X, T::X])), Some(false));
    assert_eq!(dictcom_verdict(&dictcom_page(vec![T::X])), None);
}
