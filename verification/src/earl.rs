//! Earl: the URL of a request to a dictionary site, together with the
//! headers that go with the request.
//!
//! An `Earl` keeps the origin it was made from, the path last set on it and
//! the query pairs added to it.  The text of the URL, its path and its origin
//! are made from those by the `url` crate.

use vstd::prelude::*;
use vstd::string::*;
use crate::text::push_char;

verus! {

#[verifier::external_type_specification]
#[verifier::external_body]
pub struct ExUrlParseError(url::ParseError);

/// The most characters that the origin, the path and the query pairs of an
/// `Earl` hold together, counting two more for each pair.  The `url` crate
/// keeps offsets into a URL's text as `u32` and panics once that text passes
/// 4 GiB.  A character becomes at most twelve bytes of URL (four UTF-8
/// bytes, each percent-encoded as three), so this is the largest round
/// number of characters whose URL always stays below 4 GiB.
pub const URL_INPUT_LIMIT: usize = 0x1500_0000;

/// Whether the `url` crate parses `text` as an absolute URL.
pub uninterp spec fn url_parses(text: Seq<char>) -> bool;

/// The text of the URL that `origin` parses to, once its path is set to
/// `path`.
pub uninterp spec fn url_with_path(origin: Seq<char>, path: Seq<char>) -> Seq<char>;

/// The text of the URL that `origin` parses to, once its path is set to
/// `path` and `pairs` are appended to its query.
pub uninterp spec fn url_with_pairs_appended(
    origin: Seq<char>,
    path: Seq<char>,
    pairs: Seq<(Seq<char>, Seq<char>)>,
) -> Seq<char>;

/// The text of the URL that `origin` parses to, once its path is set to
/// `path` and its query is cleared and then made of `pairs`.
pub uninterp spec fn url_with_query_replaced(
    origin: Seq<char>,
    path: Seq<char>,
    pairs: Seq<(Seq<char>, Seq<char>)>,
) -> Seq<char>;

/// The (percent-encoded) path of the URL that `origin` parses to, once its
/// path is set to `path`.
pub uninterp spec fn url_path(origin: Seq<char>, path: Seq<char>) -> Seq<char>;

/// The ASCII serialization of the origin of the URL that `origin` parses to.
pub uninterp spec fn url_origin(origin: Seq<char>) -> Seq<char>;

/// Key/value pairs, by their characters.
pub open spec fn pair_views(ps: Seq<(String, String)>) -> Seq<(Seq<char>, Seq<char>)> {
    ps.map_values(|p: (String, String)| (p.0@, p.1@))
}

/// Query parameters as the callers hand them over, by their characters.
pub open spec fn param_views(ps: Seq<(&str, String)>) -> Seq<(Seq<char>, Seq<char>)> {
    ps.map_values(|p: (&str, String)| (p.0@, p.1@))
}

/// The parameters of an optional list, by their characters; none when absent.
pub open spec fn opt_param_views(ps: Option<Vec<(&str, String)>>) -> Seq<(Seq<char>, Seq<char>)> {
    match ps {
        Some(v) => param_views(v@),
        None => Seq::empty(),
    }
}

/// An optional list of pairs, by their characters.
pub open spec fn opt_pair_views(h: Option<Vec<(String, String)>>) -> Option<Seq<(Seq<char>, Seq<char>)>> {
    match h {
        Some(v) => Some(pair_views(v@)),
        None => None,
    }
}

/// The characters that query pairs hold, counting two more for each pair
/// (its `=` and its `&`).
pub open spec fn pairs_size(ps: Seq<(Seq<char>, Seq<char>)>) -> nat
    decreases ps.len(),
{
    if ps.len() == 0 {
        0
    } else {
        pairs_size(ps.drop_last()) + ps.last().0.len() + ps.last().1.len() + 2
    }
}

/// Adding a pair to a list adds its characters, and two more.
pub proof fn lemma_pairs_size_push(ps: Seq<(Seq<char>, Seq<char>)>, p: (Seq<char>, Seq<char>))
    ensures
        pairs_size(ps.push(p)) == pairs_size(ps) + p.0.len() + p.1.len() + 2,
{
    assert(ps.push(p).drop_last() =~= ps);
}

/// What an `Earl` holds: its origin, the path last set, whether its query
/// was cleared, the query pairs added since, and its headers.
pub struct EarlView {
    pub origin: Seq<char>,
    pub path: Seq<char>,
    pub replace_query: bool,
    pub pairs: Seq<(Seq<char>, Seq<char>)>,
    pub headers: Option<Seq<(Seq<char>, Seq<char>)>>,
}

/// The characters that the origin, path and query pairs of `v` hold.
pub open spec fn view_size(v: EarlView) -> nat {
    v.origin.len() + v.path.len() + pairs_size(v.pairs)
}

/// The text of the URL that `v` stands for.
pub open spec fn url_spec(v: EarlView) -> Seq<char> {
    if v.replace_query {
        url_with_query_replaced(v.origin, v.path, v.pairs)
    } else if v.pairs.len() == 0 {
        url_with_path(v.origin, v.path)
    } else {
        url_with_pairs_appended(v.origin, v.path, v.pairs)
    }
}

/// `s` without its trailing slashes.
pub open spec fn trim_trailing_slashes(s: Seq<char>) -> Seq<char>
    decreases s.len(),
{
    if s.len() > 0 && s.last() == '/' {
        trim_trailing_slashes(s.drop_last())
    } else {
        s
    }
}

/// The path that setting the last path segment of `v` to `segment` gives:
/// the current path without its trailing slashes, a slash, and the segment.
pub open spec fn last_segment_path(v: EarlView, segment: Seq<char>) -> Seq<char> {
    trim_trailing_slashes(url_path(v.origin, v.path)) + seq!['/'] + segment
}

/// The error of making an `Earl`.
#[derive(Debug)]
pub enum EarlError {
    /// The origin is not an absolute URL.
    InvalidOrigin(url::ParseError),
}

/// The URL of a request, with the headers that go with it.
pub struct Earl {
    origin: String,
    path: String,
    replace_query: bool,
    pairs: Vec<(String, String)>,
    headers: Option<Vec<(String, String)>>,
}

impl View for Earl {
    type V = EarlView;

    closed spec fn view(&self) -> EarlView {
        EarlView {
            origin: self.origin@,
            path: self.path@,
            replace_query: self.replace_query,
            pairs: pair_views(self.pairs@),
            headers: opt_pair_views(self.headers),
        }
    }
}

/// Checks that `text` parses as an absolute URL.
///
/// Trusted: calls `url::Url::parse` and keeps only whether it succeeded,
/// with the parse error when it did not.  Success is named `url_parses`.
#[verifier::external_body]
fn check_url(text: &str) -> (r: Result<(), url::ParseError>)
    ensures
        r is Ok <==> url_parses(text@),
{
    url::Url::parse(text).map(|_| ())
}

/// The text of the URL that `origin` parses to, with its path set.
///
/// Trusted: `url::Url::parse`, then `set_path`, then the URL's text.  The
/// result is named `url_with_path`.
#[verifier::external_body]
fn serialize_with_path(origin: &str, path: &str) -> (s: String)
    requires
        url_parses(origin@),
        origin@.len() + path@.len() <= URL_INPUT_LIMIT,
    ensures
        s@ == url_with_path(origin@, path@),
{
    let mut url = url::Url::parse(origin).unwrap();
    url.set_path(path);
    url.to_string()
}

/// The text of the URL that `origin` parses to, with its path set and
/// `pairs` appended to its query.
///
/// Trusted: `url::Url::parse`, `set_path`, then `query_pairs_mut` with
/// `extend_pairs`, then the URL's text.  The result is named
/// `url_with_pairs_appended`.
#[verifier::external_body]
fn serialize_with_pairs_appended(origin: &str, path: &str, pairs: &[(String, String)]) -> (s: String)
    requires
        url_parses(origin@),
        origin@.len() + path@.len() + pairs_size(pair_views(pairs@)) <= URL_INPUT_LIMIT,
    ensures
        s@ == url_with_pairs_appended(origin@, path@, pair_views(pairs@)),
{
    let mut url = url::Url::parse(origin).unwrap();
    url.set_path(path);
    url.query_pairs_mut().extend_pairs(pairs);
    url.to_string()
}

/// The text of the URL that `origin` parses to, with its path set and its
/// query cleared and made of `pairs`.
///
/// Trusted: `url::Url::parse`, `set_path`, then `query_pairs_mut` with
/// `clear` and `extend_pairs`, then the URL's text.  The result is named
/// `url_with_query_replaced`.
#[verifier::external_body]
fn serialize_with_query_replaced(origin: &str, path: &str, pairs: &[(String, String)]) -> (s: String)
    requires
        url_parses(origin@),
        origin@.len() + path@.len() + pairs_size(pair_views(pairs@)) <= URL_INPUT_LIMIT,
    ensures
        s@ == url_with_query_replaced(origin@, path@, pair_views(pairs@)),
{
    let mut url = url::Url::parse(origin).unwrap();
    url.set_path(path);
    url.query_pairs_mut().clear().extend_pairs(pairs);
    url.to_string()
}

/// The path of the URL that `origin` parses to, once its path is set.
///
/// Trusted: `url::Url::parse`, `set_path`, then `path`.  The result is named
/// `url_path`.  It is also claimed to be at most twelve times as long as
/// `path`, plus two: `set_path` percent-encodes the path byte by byte (three
/// characters per byte, at most four bytes per character), drops tabs and
/// newlines, shortens dot segments, and adds at most a leading `/` and a
/// `/` after a Windows drive letter.
#[verifier::external_body]
fn path_after_setting(origin: &str, path: &str) -> (s: String)
    requires
        url_parses(origin@),
        origin@.len() + path@.len() <= URL_INPUT_LIMIT,
    ensures
        s@ == url_path(origin@, path@),
        s@.len() <= 12 * path@.len() + 2,
{
    let mut url = url::Url::parse(origin).unwrap();
    url.set_path(path);
    url.path().to_string()
}

/// The ASCII serialization of the origin of the URL that `origin` parses to.
///
/// Trusted: `url::Url::parse`, then `origin().ascii_serialization()`.  The
/// result is named `url_origin`.
#[verifier::external_body]
fn origin_serialization(origin: &str) -> (s: String)
    requires
        url_parses(origin@),
    ensures
        s@ == url_origin(origin@),
{
    url::Url::parse(origin).unwrap().origin().ascii_serialization()
}

/// The number of characters of `s` without its trailing slashes.
fn trimmed_len(s: &str) -> (k: usize)
    ensures
        k <= s@.len(),
        s@.subrange(0, k as int) == trim_trailing_slashes(s@),
{
    let n = s.unicode_len();
    let mut k = n;
    assert(s@.subrange(0, n as int) =~= s@);
    while k > 0 && s.get_char(k - 1) == '/'
        invariant
            n == s@.len(),
            k <= n,
            trim_trailing_slashes(s@.subrange(0, k as int)) == trim_trailing_slashes(s@),
        decreases k,
    {
        assert(s@.subrange(0, k as int).drop_last() =~= s@.subrange(0, k - 1));
        k = k - 1;
    }
    k
}

/// The query parameters as owned pairs.
fn owned_pairs(params: &Vec<(&str, String)>) -> (v: Vec<(String, String)>)
    ensures
        pair_views(v@) == param_views(params@),
{
    let mut v: Vec<(String, String)> = Vec::new();
    let mut i: usize = 0;
    while i < params.len()
        invariant
            i <= params.len(),
            pair_views(v@) =~= param_views(params@).take(i as int),
        decreases params.len() - i,
    {
        let key = String::from_str(params[i].0);
        let value = params[i].1.clone();
        assert(key@ == params@[i as int].0@);
        assert(value@ == params@[i as int].1@);
        let ghost before = v@;
        let ghost item = (key, value);
        v.push((key, value));
        assert(v@ == before.push(item));
        assert(pair_views(before).len() == before.len());
        assert(before.len() == i);
        assert(pair_views(v@)[i as int] == (item.0@, item.1@));
        i = i + 1;
        assert(pair_views(v@) =~= param_views(params@).take(i as int));
    }
    v
}

impl Earl {
    #[verifier::type_invariant]
    spec fn well_formed(self) -> bool {
        &&& url_parses(self.origin@)
        &&& view_size(self@) <= URL_INPUT_LIMIT
    }

    fn build(
        origin: &str,
        pathname: &str,
        params: Option<Vec<(&str, String)>>,
        headers: Option<Vec<(String, String)>>,
    ) -> (r: Result<Earl, EarlError>)
        requires
            origin@.len() + pathname@.len() + pairs_size(opt_param_views(params)) <= URL_INPUT_LIMIT,
        ensures
            r is Ok <==> url_parses(origin@),
            r matches Ok(e) ==> e@ == (EarlView {
                origin: origin@,
                path: pathname@,
                replace_query: false,
                pairs: opt_param_views(params),
                headers: opt_pair_views(headers),
            }),
    {
        match check_url(origin) {
            Err(e) => Err(EarlError::InvalidOrigin(e)),
            Ok(()) => {
                let pairs = match params {
                    Some(p) => owned_pairs(&p),
                    None => Vec::new(),
                };
                assert(pair_views(pairs@) =~= opt_param_views(params));
                Ok(Earl {
                    origin: String::from_str(origin),
                    path: String::from_str(pathname),
                    replace_query: false,
                    pairs,
                    headers,
                })
            },
        }
    }

    /// Makes an `Earl` for `origin` (such as `https://dictionary.cambridge.org`)
    /// with path `pathname` (such as `/dictionary/english/`) and the query
    /// parameters `params`, in order.  Fails when `origin` does not parse as
    /// an absolute URL.
    pub fn new(origin: &str, pathname: &str, params: Option<Vec<(&str, String)>>) -> (r: Result<Earl, EarlError>)
        requires
            origin@.len() + pathname@.len() + pairs_size(opt_param_views(params)) <= URL_INPUT_LIMIT,
        ensures
            r is Ok <==> url_parses(origin@),
            r matches Ok(e) ==> e@ == (EarlView {
                origin: origin@,
                path: pathname@,
                replace_query: false,
                pairs: opt_param_views(params),
                headers: None,
            }),
    {
        Earl::build(origin, pathname, params, None)
    }

    /// Makes an `Earl` as `new` does, with headers (such as a `User-Agent`)
    /// to send with the request.
    pub fn with_headers(
        origin: &str,
        pathname: &str,
        params: Option<Vec<(&str, String)>>,
        headers: Vec<(String, String)>,
    ) -> (r: Result<Earl, EarlError>)
        requires
            origin@.len() + pathname@.len() + pairs_size(opt_param_views(params)) <= URL_INPUT_LIMIT,
        ensures
            r is Ok <==> url_parses(origin@),
            r matches Ok(e) ==> e@ == (EarlView {
                origin: origin@,
                path: pathname@,
                replace_query: false,
                pairs: opt_param_views(params),
                headers: Some(pair_views(headers@)),
            }),
    {
        Earl::build(origin, pathname, params, Some(headers))
    }

    /// Replaces the path.
    pub fn set_pathname(&mut self, pathname: &str)
        requires
            old(self)@.origin.len() + pathname@.len() + pairs_size(old(self)@.pairs) <= URL_INPUT_LIMIT,
        ensures
            final(self)@ == (EarlView { path: pathname@, ..old(self)@ }),
    {
        proof { use_type_invariant(&*self); }
        self.path = String::from_str(pathname);
    }

    /// Replaces the path (the path that later segments are added to).
    pub fn set_basic_pathname(&mut self, pathname: &str)
        requires
            old(self)@.origin.len() + pathname@.len() + pairs_size(old(self)@.pairs) <= URL_INPUT_LIMIT,
        ensures
            final(self)@ == (EarlView { path: pathname@, ..old(self)@ }),
    {
        self.set_pathname(pathname);
    }

    /// The path of the URL, percent-encoded.
    pub fn get_pathname(&self) -> (s: String)
        ensures
            s@ == url_path(self@.origin, self@.path),
    {
        proof { use_type_invariant(self); }
        path_after_setting(self.origin.as_str(), self.path.as_str())
    }

    /// Sets the last segment of the path: the path loses its trailing
    /// slashes and gains a slash and `segment`, so that `/dictionary/english/`
    /// with `cat` becomes `/dictionary/english/cat`.
    pub fn set_last_path_segment(&mut self, segment: &str)
        requires
            old(self)@.origin.len() + 12 * old(self)@.path.len() + 3 + segment@.len()
                + pairs_size(old(self)@.pairs) <= URL_INPUT_LIMIT,
        ensures
            final(self)@ == (EarlView { path: last_segment_path(old(self)@, segment@), ..old(self)@ }),
    {
        proof { use_type_invariant(&*self); }
        let base = path_after_setting(self.origin.as_str(), self.path.as_str());
        let keep = trimmed_len(base.as_str());
        let mut p = String::from_str(base.as_str().substring_char(0, keep));
        push_char(&mut p, '/');
        p.append(segment);
        assert(p@ =~= last_segment_path(self@, segment@));
        self.path = p;
    }

    /// Replaces the whole query with the single pair `key=value`.
    pub fn set_search_param(&mut self, key: &str, value: &str)
        requires
            old(self)@.origin.len() + old(self)@.path.len() + key@.len() + value@.len() + 2 <= URL_INPUT_LIMIT,
        ensures
            final(self)@ == (EarlView {
                replace_query: true,
                pairs: seq![(key@, value@)],
                ..old(self)@
            }),
    {
        proof { use_type_invariant(&*self); }
        let mut pairs: Vec<(String, String)> = Vec::new();
        pairs.push((String::from_str(key), String::from_str(value)));
        assert(pair_views(pairs@) =~= seq![(key@, value@)]);
        assert(seq![(key@, value@)].drop_last() =~= Seq::<(Seq<char>, Seq<char>)>::empty());
        assert(pairs_size(Seq::<(Seq<char>, Seq<char>)>::empty()) == 0);
        assert(seq![(key@, value@)].last() == (key@, value@));
        assert(pairs_size(seq![(key@, value@)]) == key@.len() + value@.len() + 2);
        self.pairs = pairs;
        self.replace_query = true;
    }

    /// The ASCII serialization of the URL's origin, such as
    /// `https://www.oed.com`.
    pub fn get_origin(&self) -> (s: String)
        ensures
            s@ == url_origin(self@.origin),
    {
        proof { use_type_invariant(self); }
        origin_serialization(self.origin.as_str())
    }

    /// The text of the URL.
    pub fn get_url_string(&self) -> (s: String)
        ensures
            s@ == url_spec(self@),
    {
        proof { use_type_invariant(self); }
        if self.replace_query {
            serialize_with_query_replaced(self.origin.as_str(), self.path.as_str(), self.pairs.as_slice())
        } else if self.pairs.len() == 0 {
            serialize_with_path(self.origin.as_str(), self.path.as_str())
        } else {
            serialize_with_pairs_appended(self.origin.as_str(), self.path.as_str(), self.pairs.as_slice())
        }
    }

    /// The headers to send with the request, if any.
    pub fn headers(&self) -> (h: &Option<Vec<(String, String)>>)
        ensures
            self@.headers == opt_pair_views(*h),
    {
        &self.headers
    }
}

} // verus!
