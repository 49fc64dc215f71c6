use isaword::checkers::dispatch::{
    etym_outcome, method_for, outcome, request_for, result_for, segment_request, Method, Reply,
};
use isaword::checkers::dictcom::dictcom_browser_request;
use isaword::checkers::wikt::wikt_request;
use isaword::checkers::{all_dictionaries, Dictionary};

#[test]
fn request_urls_of_every_dictionary() {
    let expected = [
        (Dictionary::AmericanHeritage, "https://ahdictionary.com/word/search.html?q=cat"),
        (Dictionary::Cambridge, "https://dictionary.cambridge.org/dictionary/english/cat"),
        (Dictionary::Chambers, "https://chambers.co.uk/search/?query=cat&title=21st"),
        (Dictionary::DictionaryCom, "https://www.dictionary.com/browse/cat"),
        (Dictionary::Etymonline, "https://etymonline.com/word/cat"),
        (Dictionary::Longman, "https://www.ldoceonline.com/dictionary/cat"),
        (Dictionary::MerriamWebster, "https://www.merriam-webster.com/dictionary/cat"),
        (Dictionary::Oed, "https://www.oed.com/autocomplete/dictionary/?q=cat"),
        (Dictionary::OxfordLearners, "https://www.oxfordlearnersdictionaries.com/definition/english/cat"),
        (Dictionary::Wordnet, "http://wordnetweb.princeton.edu/perl/webwn?s=cat"),
        (Dictionary::Wordnik, "https://www.wordnik.com/words/cat"),
        (Dictionary::Wiktionary, "https://en.wiktionary.org/w/api.php?action=query&format=json&titles=cat"),
        (Dictionary::UrbanDictionary, "https://api.urbandictionary.com/v0/define?term=cat"),
    ];
    for (d, url) in expected {
        let e = request_for(d, "cat").unwrap();
        assert_eq!(e.get_url_string(), url);
    }
}

#[test]
fn wiktionary_request_names_the_client() {
    let e = wikt_request("fr", "chat").unwrap();
    assert_eq!(e.get_url_string(), "https://fr.wiktionary.org/w/api.php?action=query&format=json&titles=chat");
    assert_eq!(
        e.headers(),
        &Some(vec![("User-Agent".to_string(), "isaword/1.0 (+https://github.com/hippietrail/isaword)".to_string())])
    );
}

#[test]
fn wiktionary_request_with_a_bad_language_fails() {
    assert!(wikt_request("e n", "chat").is_err());
}

#[test]
fn browser_request_for_dictionary_com() {
    let e = dictcom_browser_request("cat").unwrap();
    assert_eq!(e.get_url_string(), "https://www.dictionary.com/browse/cat");
    let h = e.headers().clone().unwrap();
    assert_eq!(h.len(), 1);
    assert_eq!(h[0].0, "User-Agent");
    assert!(h[0].1.starts_with("Mozilla/5.0"));
}

#[test]
fn segment_request_with_headers() {
    let e = segment_request("https://x.org", "/a/", "b", Some(vec![("K".to_string(), "V".to_string())])).unwrap();
    assert_eq!(e.get_url_string(), "https://x.org/a/b");
    assert!(e.headers().is_some());
}

#[test]
fn cambridge_is_asked_with_head() {
    for d in all_dictionaries() {
        let m = method_for(d);
        if d == Dictionary::Cambridge {
            assert_eq!(m, Method::Head);
        } else {
            assert_eq!(m, Method::Get);
        }
    }
}

#[test]
fn failed_requests_are_unknown() {
    for d in all_dictionaries() {
        let e = request_for(d, "cat").unwrap();
        assert_eq!(outcome(d, "cat", &e, &Reply::Failed), None);
    }
}

#[test]
fn cambridge_outcomes() {
    let e = request_for(Dictionary::Cambridge, "cat").unwrap();
    assert_eq!(outcome(Dictionary::Cambridge, "cat", &e, &Reply::Status(200)), Some(true));
    assert_eq!(outcome(Dictionary::Cambridge, "cat", &e, &Reply::Status(301)), Some(false));
    assert_eq!(outcome(Dictionary::Cambridge, "cat", &e, &Reply::Body("x".to_string())), None);
}

#[test]
fn json_outcomes() {
    let d = Dictionary::UrbanDictionary;
    let e = request_for(d, "cat").unwrap();
    assert_eq!(outcome(d, "cat", &e, &Reply::Body(r#"{"list":[1]}"#.to_string())), Some(true));
    assert_eq!(outcome(d, "cat", &e, &Reply::Body(r#"{"list":[]}"#.to_string())), Some(false));
    assert_eq!(outcome(d, "cat", &e, &Reply::Body("<html>".to_string())), None);
    assert_eq!(outcome(d, "cat", &e, &Reply::Status(200)), None);
    let d = Dictionary::Wiktionary;
    let e = request_for(d, "cat").unwrap();
    let body = r#"{"query":{"pages":{"5":{"pageid":5}}}}"#.to_string();
    assert_eq!(outcome(d, "cat", &e, &Reply::Body(body)), Some(true));
    let d = Dictionary::Oed;
    let e = request_for(d, "cat").unwrap();
    assert_eq!(outcome(d, "cat", &e, &Reply::Body(r#"[{"name":"cat"}]"#.to_string())), Some(true));
}

#[test]
fn page_outcomes() {
    let d = Dictionary::Longman;
    let e = request_for(d, "cat").unwrap();
    let page = "<html><head class=\"metadata\"></head><body></body></html>".to_string();
    assert_eq!(outcome(d, "cat", &e, &Reply::Body(page)), Some(true));
    let page = "<html><head></head><body></body></html>".to_string();
    assert_eq!(outcome(d, "cat", &e, &Reply::Body(page)), Some(false));
    let d = Dictionary::AmericanHeritage;
    let e = request_for(d, "cat").unwrap();
    assert_eq!(outcome(d, "cat", &e, &Reply::Body("<p>hi</p>".to_string())), None);
    let found = "<html><head></head><body><a></a><a></a><a></a><div id=\"content\"><a></a><a></a>\
        <div class=\"container3\"><a></a><div id=\"results\"><table></table><hr><span></span><!-- c -->\
        </div></div></div></body></html>";
    assert_eq!(outcome(d, "cat", &e, &Reply::Body(found.to_string())), Some(true));
    let missing = "<html><head></head><body><a></a><a></a><a></a><div id=\"content\"><a></a><a></a>\
        <div class=\"container3\"><a></a><div id=\"results\">No entry</div></div></div></body></html>";
    assert_eq!(outcome(d, "cat", &e, &Reply::Body(missing.to_string())), Some(false));
    let d = Dictionary::Wordnet;
    let e = request_for(d, "cat").unwrap();
    let found = "<html><head></head><body><div class=\"header\"></div><div class=\"form\"></div></body></html>";
    assert_eq!(outcome(d, "cat", &e, &Reply::Body(found.to_string())), Some(true));
    let missing = "<html><head></head><body><form></form><form></form><h3>x</h3></body></html>";
    assert_eq!(outcome(d, "cat", &e, &Reply::Body(missing.to_string())), Some(false));
    let d = Dictionary::MerriamWebster;
    let e = request_for(d, "cat").unwrap();
    let found = "<html><head></head><body class=\"definitions-page\"><div class=\"outer-container\">\
        <div class=\"main-container\"><div class=\"redesign-container\"></div></div></div></body></html>";
    assert_eq!(outcome(d, "cat", &e, &Reply::Body(found.to_string())), Some(true));
    let d = Dictionary::DictionaryCom;
    let e = request_for(d, "cat").unwrap();
    let found = "<html><head></head><body><a></a><div id=\"root\"><div class=\"dictionary-site\"><a></a>\
        <main><a></a><a></a><a></a><a></a></main></div></div></body></html>";
    assert_eq!(outcome(d, "cat", &e, &Reply::Body(found.to_string())), Some(true));
}

#[test]
fn results_carry_names_and_kinds() {
    let d = Dictionary::Wiktionary;
    let e = request_for(d, "cat").unwrap();
    let r = result_for(d, "cat", &e, &Reply::Failed);
    assert_eq!(r.name, "Wiktionary");
    assert_eq!(r.result, None);
    assert!(r.is_community);
}

#[test]
fn etymonline_outcome_with_message() {
    let e = request_for(Dictionary::Etymonline, "cat").unwrap();
    let (r, msg) = etym_outcome("cat", &e, &Reply::Failed);
    assert_eq!(r, None);
    assert_eq!(msg, "An error occurred while fetching data.");
    let (r, msg) = etym_outcome("cat", &e, &Reply::Body("<html><body></body></html>".to_string()));
    assert_eq!(r, None);
    assert_eq!(msg, "An error occurred while fetching data.");
}
