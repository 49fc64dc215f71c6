//! What is asked of each dictionary, and how its answer becomes a verdict.
//!
//! A check goes in three steps: `request_for` makes the URL to ask, the
//! caller performs the request (`method_for` says whether it is a GET or a
//! HEAD) and hands back what came of it as a `Reply`, and `outcome` turns
//! that reply into a verdict.

use vstd::prelude::*;
use vstd::string::*;
use crate::checkers::{CheckerResult, Dictionary, checker_result, dictionary_name_spec, is_community_spec};
use crate::checkers::ahd::{ahd_path, ahd_spec, ahd_verdict};
use crate::checkers::cambridge::cambridge_verdict;
use crate::checkers::chambers::{chambers_path, chambers_spec, chambers_verdict};
use crate::checkers::dictcom::{dictcom_path, dictcom_spec, dictcom_verdict};
use crate::checkers::etym::{etym_error_message, etym_fetch_failed, etym_path, etym_spec, etym_verdict};
use crate::checkers::longman::{longman_spec, longman_verdict};
use crate::checkers::mw::{mw_body_path, mw_spec, mw_verdict};
use crate::checkers::oed::{oed_spec, oed_verdict};
use crate::checkers::oxfordlearners::{ox_container_path, oxfordlearners_spec, oxfordlearners_verdict};
use crate::checkers::urban::{urban_spec, urban_verdict};
use crate::checkers::wikt::{wikt_code, wikt_code_spec, wikt_origin, wikt_request, wikt_request_spec, wikt_result, wikt_result_spec};
use crate::checkers::wordnet::{wordnet_path, wordnet_spec, wordnet_verdict};
use crate::checkers::wordnik::{wordnik_path, wordnik_spec, wordnik_verdict};
use crate::dom::{DomNode, body_index_spec, domstroll_spec, has_root_spec, page_dom, page_dom_spec};
use crate::earl::{
    Earl, EarlError, EarlView, URL_INPUT_LIMIT, last_segment_path, lemma_pairs_size_push, opt_pair_views,
    pairs_size, param_views, url_parses, url_spec,
};
use crate::json::{JsonValue, parse_json, parsed_json};

verus! {

/// The longest word (in characters) that a request is made for: what fits
/// twice, with the fixed parts of any request, into `URL_INPUT_LIMIT`.
pub const MAX_WORD_LEN: usize = 0x0A00_0000;

/// How a dictionary is asked.
#[derive(Clone, Copy, Debug, PartialEq, Eq, Structural)]
pub enum Method {
    /// A GET request, whose body is read.
    Get,
    /// A HEAD request, whose status is read.
    Head,
}

/// What came of a request.
#[derive(Debug)]
pub enum Reply {
    /// The body of the answer to a GET request.
    Body(String),
    /// The status of the answer to a HEAD request.
    Status(u16),
    /// The request could not be made or answered.
    Failed,
}

/// A request for `origin` and `path` with the query parameters `pairs`.
pub open spec fn query_request_spec(
    origin: Seq<char>,
    path: Seq<char>,
    pairs: Seq<(Seq<char>, Seq<char>)>,
) -> EarlView {
    EarlView { origin, path, replace_query: false, pairs, headers: None }
}

/// A request for `origin` and `path` whose last path segment is then set to
/// `segment`.
pub open spec fn segment_request_spec(
    origin: Seq<char>,
    path: Seq<char>,
    segment: Seq<char>,
    headers: Option<Seq<(Seq<char>, Seq<char>)>>,
) -> EarlView {
    let base = EarlView { origin, path, replace_query: false, pairs: Seq::empty(), headers };
    EarlView { path: last_segment_path(base, segment), ..base }
}

/// Makes a request for `origin` and `path` with the single query parameter
/// `key=value`.
fn one_param_request(origin: &str, path: &str, key: &str, value: &str) -> (r: Result<Earl, EarlError>)
    requires
        origin@.len() + path@.len() + key@.len() + value@.len() + 2 <= URL_INPUT_LIMIT,
    ensures
        r is Ok <==> url_parses(origin@),
        r matches Ok(e) ==> e@ == query_request_spec(origin@, path@, seq![(key@, value@)]),
{
    let params = vec![(key, String::from_str(value))];
    assert(param_views(params@) =~= seq![(key@, value@)]);
    proof { lemma_pairs_size_push(Seq::empty(), (key@, value@)); }
    Earl::new(origin, path, Some(params))
}

/// Makes a request for `origin` and `path`, then sets its last path segment
/// to `segment`.
pub fn segment_request(
    origin: &str,
    path: &str,
    segment: &str,
    headers: Option<Vec<(String, String)>>,
) -> (r: Result<Earl, EarlError>)
    requires
        origin@.len() + 12 * path@.len() + 3 + segment@.len() <= URL_INPUT_LIMIT,
    ensures
        r is Ok <==> url_parses(origin@),
        r matches Ok(e) ==> e@ == segment_request_spec(origin@, path@, segment@, opt_pair_views(headers)),
{
    let made = match headers {
        Some(h) => Earl::with_headers(origin, path, None, h),
        None => Earl::new(origin, path, None),
    };
    match made {
        Ok(mut e) => {
            e.set_last_path_segment(segment);
            Ok(e)
        },
        Err(x) => Err(x),
    }
}

/// The origin asked for a dictionary.
pub open spec fn request_origin(d: Dictionary) -> Seq<char> {
    match d {
        Dictionary::AmericanHeritage => "https://ahdictionary.com"@,
        Dictionary::Cambridge => "https://dictionary.cambridge.org"@,
        Dictionary::Chambers => "https://chambers.co.uk"@,
        Dictionary::DictionaryCom => "https://www.dictionary.com"@,
        Dictionary::Etymonline => "https://etymonline.com"@,
        Dictionary::Longman => "https://www.ldoceonline.com"@,
        Dictionary::MerriamWebster => "https://www.merriam-webster.com"@,
        Dictionary::Oed => "https://www.oed.com"@,
        Dictionary::OxfordLearners => "https://www.oxfordlearnersdictionaries.com"@,
        Dictionary::Wordnet => "http://wordnetweb.princeton.edu"@,
        Dictionary::Wordnik => "https://www.wordnik.com"@,
        Dictionary::Wiktionary => "https://en.wiktionary.org"@,
        Dictionary::UrbanDictionary => "https://api.urbandictionary.com"@,
    }
}

/// The request that asks dictionary `d` about `word`.
pub open spec fn request_spec(d: Dictionary, word: Seq<char>) -> EarlView {
    let o = request_origin(d);
    match d {
        Dictionary::AmericanHeritage => query_request_spec(o, "/word/search.html"@, seq![("q"@, word)]),
        Dictionary::Cambridge => segment_request_spec(o, "/dictionary/english/"@, word, None),
        Dictionary::Chambers => query_request_spec(o, "/search/"@, seq![("query"@, word), ("title"@, "21st"@)]),
        Dictionary::DictionaryCom => segment_request_spec(o, "/browse/"@, word, None),
        Dictionary::Etymonline => segment_request_spec(o, "/word/"@, word, None),
        Dictionary::Longman => segment_request_spec(o, "/dictionary/"@, word, None),
        Dictionary::MerriamWebster => segment_request_spec(o, "/dictionary/"@, word, None),
        Dictionary::Oed => query_request_spec(o, "/autocomplete/dictionary/"@, seq![("q"@, word)]),
        Dictionary::OxfordLearners => segment_request_spec(o, "/definition/english/"@, word, None),
        Dictionary::Wordnet => query_request_spec(o, "/perl/webwn"@, seq![("s"@, word)]),
        Dictionary::Wordnik => segment_request_spec(o, "/words/"@, word, None),
        Dictionary::Wiktionary => wikt_request_spec("en"@, word),
        Dictionary::UrbanDictionary => query_request_spec(o, "/v0/define"@, seq![("term"@, word)]),
    }
}

/// Makes the request that asks dictionary `d` about `word`.
pub fn request_for(d: Dictionary, word: &str) -> (r: Result<Earl, EarlError>)
    requires
        word@.len() <= MAX_WORD_LEN,
    ensures
        r is Ok <==> url_parses(request_origin(d)),
        r matches Ok(e) ==> e@ == request_spec(d, word@),
{
    match d {
        Dictionary::AmericanHeritage => {
            proof {
                reveal_strlit("https://ahdictionary.com");
                reveal_strlit("/word/search.html");
                reveal_strlit("q");
            }
            one_param_request("https://ahdictionary.com", "/word/search.html", "q", word)
        },
        Dictionary::Cambridge => {
            proof {
                reveal_strlit("https://dictionary.cambridge.org");
                reveal_strlit("/dictionary/english/");
            }
            segment_request("https://dictionary.cambridge.org", "/dictionary/english/", word, None)
        },
        Dictionary::Chambers => {
            proof {
                reveal_strlit("https://chambers.co.uk");
                reveal_strlit("/search/");
                reveal_strlit("query");
                reveal_strlit("title");
                reveal_strlit("21st");
            }
            let params = vec![("query", String::from_str(word)), ("title", String::from_str("21st"))];
            assert(param_views(params@) =~= seq![("query"@, word@), ("title"@, "21st"@)]);
            proof {
                let ps = seq![("query"@, word@), ("title"@, "21st"@)];
                lemma_pairs_size_push(Seq::empty(), ps[0]);
                lemma_pairs_size_push(seq![ps[0]], ps[1]);
                assert(seq![ps[0]].push(ps[1]) =~= ps);
                assert(seq![ps[0]] =~= Seq::empty().push(ps[0]));
                assert(pairs_size(ps) == word@.len() + 5 + 2 + 5 + 4 + 2);
            }
            Earl::new("https://chambers.co.uk", "/search/", Some(params))
        },
        Dictionary::DictionaryCom => {
            proof {
                reveal_strlit("https://www.dictionary.com");
                reveal_strlit("/browse/");
            }
            segment_request("https://www.dictionary.com", "/browse/", word, None)
        },
        Dictionary::Etymonline => {
            proof {
                reveal_strlit("https://etymonline.com");
                reveal_strlit("/word/");
            }
            segment_request("https://etymonline.com", "/word/", word, None)
        },
        Dictionary::Longman => {
            proof {
                reveal_strlit("https://www.ldoceonline.com");
                reveal_strlit("/dictionary/");
            }
            segment_request("https://www.ldoceonline.com", "/dictionary/", word, None)
        },
        Dictionary::MerriamWebster => {
            proof {
                reveal_strlit("https://www.merriam-webster.com");
                reveal_strlit("/dictionary/");
            }
            segment_request("https://www.merriam-webster.com", "/dictionary/", word, None)
        },
        Dictionary::Oed => {
            proof {
                reveal_strlit("https://www.oed.com");
                reveal_strlit("/autocomplete/dictionary/");
                reveal_strlit("q");
            }
            one_param_request("https://www.oed.com", "/autocomplete/dictionary/", "q", word)
        },
        Dictionary::OxfordLearners => {
            proof {
                reveal_strlit("https://www.oxfordlearnersdictionaries.com");
                reveal_strlit("/definition/english/");
            }
            segment_request("https://www.oxfordlearnersdictionaries.com", "/definition/english/", word, None)
        },
        Dictionary::Wordnet => {
            proof {
                reveal_strlit("http://wordnetweb.princeton.edu");
                reveal_strlit("/perl/webwn");
                reveal_strlit("s");
            }
            one_param_request("http://wordnetweb.princeton.edu", "/perl/webwn", "s", word)
        },
        Dictionary::Wordnik => {
            proof {
                reveal_strlit("https://www.wordnik.com");
                reveal_strlit("/words/");
            }
            segment_request("https://www.wordnik.com", "/words/", word, None)
        },
        Dictionary::Wiktionary => {
            proof {
                reveal_strlit("en");
                reveal_strlit("https://");
                reveal_strlit(".wiktionary.org");
                reveal_strlit("https://en.wiktionary.org");
                assert(wikt_origin("en"@) =~= "https://en.wiktionary.org"@);
            }
            wikt_request("en", word)
        },
        Dictionary::UrbanDictionary => {
            proof {
                reveal_strlit("https://api.urbandictionary.com");
                reveal_strlit("/v0/define");
                reveal_strlit("term");
            }
            one_param_request("https://api.urbandictionary.com", "/v0/define", "term", word)
        },
    }
}

/// How dictionary `d` is asked: Cambridge with a HEAD request, the others
/// with a GET request.
pub fn method_for(d: Dictionary) -> (m: Method)
    ensures
        m == (if d == Dictionary::Cambridge { Method::Head } else { Method::Get }),
{
    match d {
        Dictionary::Cambridge => Method::Head,
        _ => Method::Get,
    }
}

/// Whether dictionary `d` answers in JSON.
pub open spec fn answers_json(d: Dictionary) -> bool {
    d == Dictionary::Oed || d == Dictionary::UrbanDictionary || d == Dictionary::Wiktionary
}

/// The verdict of an HTML-answering dictionary on its page.
pub open spec fn page_verdict_spec(d: Dictionary, word: Seq<char>, url: Seq<char>, nodes: Seq<DomNode>) -> Option<bool> {
    match d {
        Dictionary::AmericanHeritage => ahd_spec(nodes),
        Dictionary::Chambers => chambers_spec(nodes),
        Dictionary::DictionaryCom => dictcom_spec(nodes),
        Dictionary::Etymonline => etym_spec(word, url, nodes).0,
        Dictionary::Longman => longman_spec(nodes),
        Dictionary::MerriamWebster => mw_spec(nodes),
        Dictionary::OxfordLearners => oxfordlearners_spec(nodes),
        Dictionary::Wordnet => wordnet_spec(nodes),
        Dictionary::Wordnik => wordnik_spec(nodes),
        _ => None,
    }
}

/// The verdict of a JSON-answering dictionary on its answer.
pub open spec fn json_verdict_spec(d: Dictionary, word: Seq<char>, data: Option<JsonValue>) -> Option<bool> {
    match d {
        Dictionary::Oed => oed_spec(word, data),
        Dictionary::UrbanDictionary => urban_spec(data),
        Dictionary::Wiktionary => wikt_result_spec(wikt_code_spec(data)),
        _ => None,
    }
}

/// The verdict of dictionary `d` about `word`, given what came of the
/// request for `url`: `None` whenever the request failed or its answer is
/// not of the expected kind or shape.
pub open spec fn outcome_spec(d: Dictionary, word: Seq<char>, url: Seq<char>, reply: Reply) -> Option<bool> {
    if d == Dictionary::Cambridge {
        match reply {
            Reply::Status(s) => Some(!(300 <= s < 400)),
            _ => None,
        }
    } else {
        match reply {
            Reply::Body(text) => if answers_json(d) {
                json_verdict_spec(d, word, parsed_json(text@))
            } else {
                match page_dom_spec(text@) {
                    Some(nodes) => page_verdict_spec(d, word, url, nodes),
                    None => None,
                }
            },
            _ => None,
        }
    }
}

/// The verdict of an HTML-answering dictionary on its page.
fn page_verdict(d: Dictionary, word: &str, earl: &Earl, dom: &Vec<DomNode>) -> (r: Option<bool>)
    requires
        has_root_spec(dom@),
    ensures
        r == page_verdict_spec(d, word@, url_spec(earl@), dom@),
{
    match d {
        Dictionary::AmericanHeritage => ahd_verdict(dom),
        Dictionary::Chambers => chambers_verdict(dom),
        Dictionary::DictionaryCom => dictcom_verdict(dom),
        Dictionary::Etymonline => {
            let url = earl.get_url_string();
            etym_verdict(word, url.as_str(), dom).0
        },
        Dictionary::Longman => longman_verdict(dom),
        Dictionary::MerriamWebster => mw_verdict(dom),
        Dictionary::OxfordLearners => oxfordlearners_verdict(dom),
        Dictionary::Wordnet => wordnet_verdict(dom),
        Dictionary::Wordnik => wordnik_verdict(dom),
        _ => None,
    }
}

/// The verdict of a JSON-answering dictionary on its answer.
fn json_verdict(d: Dictionary, word: &str, data: &Option<JsonValue>) -> (r: Option<bool>)
    ensures
        r == json_verdict_spec(d, word@, *data),
{
    match d {
        Dictionary::Oed => oed_verdict(word, data),
        Dictionary::UrbanDictionary => urban_verdict(data),
        Dictionary::Wiktionary => wikt_result(wikt_code(data)),
        _ => None,
    }
}

/// The verdict of dictionary `d` about `word`, given what came of the
/// request `earl`.
pub fn outcome(d: Dictionary, word: &str, earl: &Earl, reply: &Reply) -> (r: Option<bool>)
    ensures
        r == outcome_spec(d, word@, url_spec(earl@), *reply),
{
    if d == Dictionary::Cambridge {
        match reply {
            Reply::Status(s) => cambridge_verdict(Some(*s)),
            _ => None,
        }
    } else {
        match reply {
            Reply::Body(text) => {
                if d == Dictionary::Oed || d == Dictionary::UrbanDictionary || d == Dictionary::Wiktionary {
                    let data = parse_json(text.as_str());
                    json_verdict(d, word, &data)
                } else {
                    match page_dom(text.as_str()) {
                        Some(dom) => page_verdict(d, word, earl, &dom),
                        None => None,
                    }
                }
            },
            _ => None,
        }
    }
}

/// The result of checking `word` in dictionary `d`, given what came of the
/// request `earl`.
pub fn result_for(d: Dictionary, word: &str, earl: &Earl, reply: &Reply) -> (r: CheckerResult)
    ensures
        r.name@ == dictionary_name_spec(d),
        r.result == outcome_spec(d, word@, url_spec(earl@), *reply),
        r.is_community == is_community_spec(d),
{
    checker_result(d, outcome(d, word, earl, reply))
}

/// The Etymonline verdict and message about `word`, given what came of the
/// request `earl`.
pub open spec fn etym_outcome_spec(word: Seq<char>, url: Seq<char>, reply: Reply) -> (Option<bool>, Seq<char>) {
    match reply {
        Reply::Body(text) => match page_dom_spec(text@) {
            Some(nodes) => etym_spec(word, url, nodes),
            None => (None, etym_error_message()),
        },
        _ => (None, etym_error_message()),
    }
}

/// The Etymonline verdict and message about `word`, given what came of the
/// request `earl`.
pub fn etym_outcome(word: &str, earl: &Earl, reply: &Reply) -> (r: (Option<bool>, String))
    ensures
        (r.0, r.1@) == etym_outcome_spec(word@, url_spec(earl@), *reply),
{
    match reply {
        Reply::Body(text) => match page_dom(text.as_str()) {
            Some(dom) => {
                let url = earl.get_url_string();
                etym_verdict(word, url.as_str(), &dom)
            },
            None => etym_fetch_failed(),
        },
        _ => etym_fetch_failed(),
    }
}

/// A request that fails leaves the verdict of every dictionary unknown, and
/// so does an answer of the wrong kind: a status where a page is read, or a
/// page where a status is read.
pub proof fn lemma_failed_request_unknown(d: Dictionary, word: Seq<char>, url: Seq<char>, status: u16, text: String)
    ensures
        outcome_spec(d, word, url, Reply::Failed) is None,
        d != Dictionary::Cambridge ==> outcome_spec(d, word, url, Reply::Status(status)) is None,
        d == Dictionary::Cambridge ==> outcome_spec(d, word, url, Reply::Body(text)) is None,
{
}

/// An answer that is not JSON leaves the verdict of a JSON-answering
/// dictionary unknown, and a page without a root element that of an
/// HTML-answering one.
pub proof fn lemma_unreadable_answer_unknown(d: Dictionary, word: Seq<char>, url: Seq<char>, text: String)
    ensures
        d != Dictionary::Cambridge && answers_json(d) && parsed_json(text@) is None
            ==> outcome_spec(d, word, url, Reply::Body(text)) is None,
        d != Dictionary::Cambridge && !answers_json(d) && page_dom_spec(text@) is None
            ==> outcome_spec(d, word, url, Reply::Body(text)) is None,
{
}

/// The position of `<body>` among the root element's children, or
/// `fallback` when there is none.
pub open spec fn body_or(nodes: Seq<DomNode>, fallback: int) -> int {
    match body_index_spec(nodes) {
        Some(i) => i,
        None => fallback,
    }
}

/// When the walk to the part of the page that a dictionary reads fails, its
/// verdict is unknown.
pub proof fn lemma_failed_walk_unknown(nodes: Seq<DomNode>, word: Seq<char>, url: Seq<char>)
    ensures
        domstroll_spec(nodes, "ahd"@, ahd_path(body_or(nodes, 1))) is Err ==> ahd_spec(nodes) is None,
        domstroll_spec(nodes, "cham"@, chambers_path(body_or(nodes, 3))) is Err ==> chambers_spec(nodes) is None,
        domstroll_spec(nodes, "dict.com"@, dictcom_path(body_or(nodes, 2))) is Err ==> dictcom_spec(nodes) is None,
        domstroll_spec(nodes, "etym"@, etym_path(body_or(nodes, 2))) is Err ==> etym_spec(word, url, nodes).0 is None,
        domstroll_spec(nodes, "mw"@, mw_body_path(body_or(nodes, 2))) is Err ==> mw_spec(nodes) is None,
        domstroll_spec(nodes, "ox"@, ox_container_path(body_or(nodes, 2))) is Err ==> oxfordlearners_spec(nodes) is None,
        domstroll_spec(nodes, "wordnet"@, wordnet_path(body_or(nodes, 3))) is Err ==> wordnet_spec(nodes) is None,
        domstroll_spec(nodes, "wordnik1"@, wordnik_path(body_or(nodes, 2))) is Err ==> wordnik_spec(nodes) is None,
{
}

} // verus!
