use isaword::earl::{Earl, EarlError};

#[test]
fn url_with_query_parameters() {
    let e = Earl::new("https://ahdictionary.com", "/word/search.html", Some(vec![("q", "cat".to_string())])).unwrap();
    assert_eq!(e.get_url_string(), "https://ahdictionary.com/word/search.html?q=cat");
}

#[test]
fn query_parameters_are_encoded_in_order() {
    let e = Earl::new(
        "https://chambers.co.uk",
        "/search/",
        Some(vec![("query", "hello world".to_string()), ("title", "21st".to_string())]),
    )
    .unwrap();
    assert_eq!(e.get_url_string(), "https://chambers.co.uk/search/?query=hello+world&title=21st");
}

#[test]
fn url_without_parameters() {
    let e = Earl::new("https://www.wordnik.com", "/words/", None).unwrap();
    assert_eq!(e.get_url_string(), "https://www.wordnik.com/words/");
    let e = Earl::new("https://www.wordnik.com", "/words/", Some(vec![])).unwrap();
    assert_eq!(e.get_url_string(), "https://www.wordnik.com/words/");
}

#[test]
fn last_path_segment_follows_a_slash() {
    let mut e = Earl::new("https://dictionary.cambridge.org", "/dictionary/english/", None).unwrap();
    e.set_last_path_segment("cat");
    assert_eq!(e.get_url_string(), "https://dictionary.cambridge.org/dictionary/english/cat");
    assert_eq!(e.get_pathname(), "/dictionary/english/cat");
}

#[test]
fn last_path_segment_trims_every_trailing_slash() {
    let mut e = Earl::new("https://etymonline.com", "/word///", None).unwrap();
    e.set_last_path_segment("well-being");
    assert_eq!(e.get_url_string(), "https://etymonline.com/word/well-being");
}

#[test]
fn last_path_segment_of_the_root_path() {
    let mut e = Earl::new("https://example.org", "/", None).unwrap();
    e.set_last_path_segment("x");
    assert_eq!(e.get_pathname(), "/x");
}

#[test]
fn last_path_segment_is_percent_encoded() {
    let mut e = Earl::new("https://www.ldoceonline.com", "/dictionary/", None).unwrap();
    e.set_last_path_segment("café au lait");
    assert_eq!(e.get_url_string(), "https://www.ldoceonline.com/dictionary/caf%C3%A9%20au%20lait");
}

#[test]
fn search_param_replaces_the_query() {
    let mut e = Earl::new("https://www.oed.com", "/autocomplete/dictionary/", Some(vec![("q", "cat".to_string()), ("x", "1".to_string())])).unwrap();
    e.set_search_param("q", "dog");
    assert_eq!(e.get_url_string(), "https://www.oed.com/autocomplete/dictionary/?q=dog");
    e.set_search_param("r", "a&b");
    assert_eq!(e.get_url_string(), "https://www.oed.com/autocomplete/dictionary/?r=a%26b");
}

#[test]
fn search_param_clears_a_query_of_the_origin() {
    let mut e = Earl::new("https://example.org/?a=b", "/p", None).unwrap();
    assert_eq!(e.get_url_string(), "https://example.org/p?a=b");
    e.set_search_param("c", "d");
    assert_eq!(e.get_url_string(), "https://example.org/p?c=d");
}

#[test]
fn pathname_can_be_replaced() {
    let mut e = Earl::new("https://example.org", "/a", None).unwrap();
    e.set_pathname("/b c");
    assert_eq!(e.get_pathname(), "/b%20c");
    e.set_basic_pathname("/d/");
    assert_eq!(e.get_pathname(), "/d/");
}

#[test]
fn origin_is_serialized() {
    let e = Earl::new("https://www.oed.com", "/autocomplete/dictionary/", None).unwrap();
    assert_eq!(e.get_origin(), "https://www.oed.com");
    let e = Earl::new("HTTP://Example.ORG:80", "/x", None).unwrap();
    assert_eq!(e.get_origin(), "http://example.org");
}

#[test]
fn headers_are_kept() {
    let e = Earl::with_headers(
        "https://en.wiktionary.org",
        "/w/api.php",
        None,
        vec![("User-Agent".to_string(), "isaword/1.0".to_string())],
    )
    .unwrap();
    assert_eq!(e.headers(), &Some(vec![("User-Agent".to_string(), "isaword/1.0".to_string())]));
    let e = Earl::new("https://en.wiktionary.org", "/w/api.php", None).unwrap();
    assert_eq!(e.headers(), &None);
}

#[test]
fn relative_origin_is_refused() {
    match Earl::new("dictionary.cambridge.org", "/dictionary/", None) {
        Err(EarlError::InvalidOrigin(e)) => assert_eq!(e, url::ParseError::RelativeUrlWithoutBase),
        Ok(_) => panic!("a relative origin was accepted"),
    }
}

#[test]
fn origin_with_a_bad_port_is_refused() {
    assert!(matches!(
        Earl::new("https://example.org:99999", "/", None),
        Err(EarlError::InvalidOrigin(url::ParseError::InvalidPort))
    ));
}
