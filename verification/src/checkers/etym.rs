//! Etymonline.
//!
//! Finds the word sections of an Etymonline entry page, reads the word that
//! heads each section, and compares those words (ignoring case) with the
//! word looked up.  Returns the verdict and a message explaining it.
//!
//! URL structure: `https://etymonline.com/word/WORD`

use vstd::prelude::*;
use vstd::string::*;
use crate::dom::{
    DomNode, DomOpts, NodeKind, StepSpec, body_index_spec, children_of, children_spec, class_step,
    domstroll, domstroll_spec, element_children, element_children_spec, element_named,
    find_body_index, has_root_spec, id_step, is_element_named, lemma_children_bounds,
    lemma_element_children, path_view, plain_step,
};
use crate::format::comma_join;
use crate::report::{lemma_string_views_push, string_views};
use crate::select::{lowercase, to_lowercase};
use crate::text::{contains_seq, decimal, decimal_string, str_contains, str_eq};

verus! {

/// The walk from the root element to the `.ant-col-lg-17` column, given the
/// position of `<body>`.
pub open spec fn etym_path(body: int) -> Seq<StepSpec> {
    seq![
        plain_step(body, "body"@),
        id_step(1, "div"@, "root"@),
        plain_step(0, "div"@),
        class_step(0, "div"@, "container--1mazc"@),
        class_step(1, "div"@, "main"@),
        class_step(0, "div"@, "ant-row-flex"@),
        class_step(0, "div"@, "ant-col-lg-17"@),
    ]
}

/// Whether element `k` is a word section: a `<div>` whose class contains
/// `word--C9UPa`.
pub open spec fn is_word_section(nodes: Seq<DomNode>, k: int) -> bool {
    is_element_named(nodes, k, "div"@) && nodes[k].class is Some && contains_seq(nodes[k].class->0@, "word--C9UPa"@)
}

/// The word that heads a word section: the text that is the first child of
/// the section's first child's first child, when those two are elements and
/// the second has a class containing `word__name--TTbAA`.
pub open spec fn section_word(nodes: Seq<DomNode>, sec: int) -> Option<Seq<char>> {
    let k1 = children_spec(nodes, sec);
    if k1.len() == 0 || nodes[k1[0]].kind != NodeKind::Element {
        None
    } else {
        let k2 = children_spec(nodes, k1[0]);
        if k2.len() == 0 || nodes[k2[0]].kind != NodeKind::Element || nodes[k2[0]].class is None
            || !contains_seq(nodes[k2[0]].class->0@, "word__name--TTbAA"@) {
            None
        } else {
            let k3 = children_spec(nodes, k2[0]);
            if k3.len() == 0 || nodes[k3[0]].kind != NodeKind::Text {
                None
            } else {
                Some(nodes[k3[0]].text@)
            }
        }
    }
}

/// The words heading the word sections among the elements `tags`, in order.
pub open spec fn section_words(nodes: Seq<DomNode>, tags: Seq<int>) -> Seq<Seq<char>>
    decreases tags.len(),
{
    if tags.len() == 0 {
        Seq::empty()
    } else {
        let rest = section_words(nodes, tags.drop_last());
        if is_word_section(nodes, tags.last()) && section_word(nodes, tags.last()) is Some {
            rest.push(section_word(nodes, tags.last())->0)
        } else {
            rest
        }
    }
}

/// `ws` without repetitions, each word kept at its first occurrence.
pub open spec fn dedupe(ws: Seq<Seq<char>>) -> Seq<Seq<char>>
    decreases ws.len(),
{
    if ws.len() == 0 {
        Seq::empty()
    } else {
        let d = dedupe(ws.drop_last());
        if d.contains(ws.last()) {
            d
        } else {
            d.push(ws.last())
        }
    }
}

/// Each word in single quotes.
pub open spec fn quoted(ws: Seq<Seq<char>>) -> Seq<Seq<char>> {
    ws.map_values(|w: Seq<char>| "'"@ + w + "'"@)
}

/// Whether some word equals `word`, ignoring case.
pub open spec fn any_matches(ws: Seq<Seq<char>>, word: Seq<char>) -> bool {
    exists|i: int| 0 <= i < ws.len() && lowercase(#[trigger] ws[i]) == lowercase(word)
}

/// The Etymonline verdict and message, given the words heading the word
/// sections and the page's URL.
pub open spec fn etym_words_spec(word: Seq<char>, url: Seq<char>, words: Seq<Seq<char>>) -> (Option<bool>, Seq<char>) {
    let unique = dedupe(words);
    let verb = if words.len() == 1 { "is"@ } else { "are"@ };
    let suffix = if words.len() == 1 { ""@ } else { "s"@ };
    let head = "[there "@ + verb + " "@ + decimal(words.len()) + " word section"@ + suffix + ".]("@ + url + ")"@;
    if any_matches(unique, word) {
        if unique.len() != 1 {
            (Some(true), head + "\nat least one of "@ + comma_join(quoted(unique)) + " matches '"@ + word + "'."@)
        } else {
            (Some(true), head)
        }
    } else if unique.len() == 1 {
        (Some(false), head + "\nbut '"@ + unique[0] + "' does not match '"@ + word + "'!"@)
    } else {
        (Some(false), head + "\nbut none of "@ + comma_join(quoted(unique)) + " match '"@ + word + "'!"@)
    }
}

/// The message when the page could not be fetched or navigated.
pub open spec fn etym_error_message() -> Seq<char> {
    "An error occurred while fetching data."@
}

/// The Etymonline verdict and message on an entry page.
pub open spec fn etym_spec(word: Seq<char>, url: Seq<char>, nodes: Seq<DomNode>) -> (Option<bool>, Seq<char>) {
    let body = match body_index_spec(nodes) {
        Some(i) => i,
        None => 2,
    };
    match domstroll_spec(nodes, "etym"@, etym_path(body)) {
        Ok(col) => {
            let tags = element_children_spec(nodes, col);
            if tags.len() >= 3 && is_element_named(nodes, tags[0], "h2"@) && is_element_named(nodes, tags[1], "p"@)
                && is_element_named(nodes, tags[2], "p"@) {
                (None, "Not in Etymonline"@)
            } else {
                etym_words_spec(word, url, section_words(nodes, tags))
            }
        },
        Err(_) => (None, etym_error_message()),
    }
}

/// The verdict and message when the page could not be fetched.
pub fn etym_fetch_failed() -> (r: (Option<bool>, String))
    ensures
        r.0 is None,
        r.1@ == etym_error_message(),
{
    (None, String::from_str("An error occurred while fetching data."))
}

/// The word heading a word section, if any.
fn read_section_word(nodes: &Vec<DomNode>, sec: usize) -> (r: Option<String>)
    requires
        sec < nodes.len(),
    ensures
        match r {
            Some(w) => section_word(nodes@, sec as int) == Some(w@),
            None => section_word(nodes@, sec as int) is None,
        },
{
    let k1 = children_of(nodes, sec);
    proof { lemma_children_bounds(nodes@, sec as int); }
    if k1.len() == 0 || nodes[k1[0]].kind != NodeKind::Element {
        return None;
    }
    let c1 = k1[0];
    let k2 = children_of(nodes, c1);
    proof { lemma_children_bounds(nodes@, c1 as int); }
    if k2.len() == 0 || nodes[k2[0]].kind != NodeKind::Element {
        return None;
    }
    let c2 = k2[0];
    match &nodes[c2].class {
        None => {
            return None;
        },
        Some(c) => {
            if !str_contains(c.as_str(), "word__name--TTbAA") {
                return None;
            }
        },
    }
    let k3 = children_of(nodes, c2);
    proof { lemma_children_bounds(nodes@, c2 as int); }
    if k3.len() == 0 || nodes[k3[0]].kind != NodeKind::Text {
        return None;
    }
    Some(String::from_str(nodes[k3[0]].text.as_str()))
}

/// Whether element `k` is a word section.
fn word_section(nodes: &Vec<DomNode>, k: usize) -> (b: bool)
    ensures
        b == is_word_section(nodes@, k as int),
{
    if !element_named(nodes, k, "div") {
        return false;
    }
    match &nodes[k].class {
        Some(c) => str_contains(c.as_str(), "word--C9UPa"),
        None => false,
    }
}

/// Whether `w` is among the strings of `v`.
fn contains_string(v: &Vec<String>, w: &String) -> (b: bool)
    ensures
        b == string_views(v@).contains(w@),
{
    let mut i: usize = 0;
    while i < v.len()
        invariant
            i <= v.len(),
            forall|k: int| 0 <= k < i ==> string_views(v@)[k] != w@,
        decreases v.len() - i,
    {
        if v[i] == *w {
            assert(string_views(v@)[i as int] == w@);
            return true;
        }
        i = i + 1;
    }
    false
}

/// The words without repetitions, each kept at its first occurrence.
fn dedupe_words(words: &Vec<String>) -> (u: Vec<String>)
    ensures
        string_views(u@) == dedupe(string_views(words@)),
{
    let ghost ws = string_views(words@);
    let mut u: Vec<String> = Vec::new();
    let mut i: usize = 0;
    while i < words.len()
        invariant
            ws == string_views(words@),
            i <= words.len(),
            string_views(u@) == dedupe(ws.take(i as int)),
        decreases words.len() - i,
    {
        assert(ws.take(i + 1).drop_last() =~= ws.take(i as int));
        assert(ws.take(i + 1).last() == words@[i as int]@);
        if !contains_string(&u, &words[i]) {
            proof { lemma_string_views_push(u@, words@[i as int]); }
            u.push(words[i].clone());
        }
        i = i + 1;
    }
    assert(ws.take(words.len() as int) =~= ws);
    u
}

/// Each word quoted and the whole joined by `", "`.
fn quoted_list(ws: &Vec<String>) -> (s: String)
    ensures
        s@ == comma_join(quoted(string_views(ws@))),
{
    let ghost q = quoted(string_views(ws@));
    let mut s = String::new();
    let mut i: usize = 0;
    while i < ws.len()
        invariant
            q == quoted(string_views(ws@)),
            i <= ws.len(),
            s@ == comma_join(q.take(i as int)),
        decreases ws.len() - i,
    {
        assert(q.take(i + 1).drop_last() =~= q.take(i as int));
        assert(q[i as int] == "'"@ + ws@[i as int]@ + "'"@);
        if i > 0 {
            s.append(", ");
        } else {
            assert(q.take(1) =~= seq![q[0]]);
        }
        s.append("'");
        s.append(ws[i].as_str());
        s.append("'");
        i = i + 1;
    }
    assert(q.take(ws.len() as int) =~= q);
    s
}

/// The Etymonline verdict and message, given the words heading the word
/// sections and the page's URL.
pub fn etym_words_verdict(word: &str, url: &str, words: &Vec<String>) -> (r: (Option<bool>, String))
    ensures
        (r.0, r.1@) == etym_words_spec(word@, url@, string_views(words@)),
{
    let unique = dedupe_words(words);
    let ghost us = string_views(unique@);
    let n = words.len();
    let mut head = String::new();
    head.append("[there ");
    if n == 1 {
        head.append("is");
    } else {
        head.append("are");
    }
    head.append(" ");
    let d = decimal_string(n);
    head.append(d.as_str());
    head.append(" word section");
    if n == 1 {
        proof { reveal_strlit(""); }
        assert(head@ =~= head@ + ""@);
    } else {
        head.append("s");
    }
    head.append(".](");
    head.append(url);
    head.append(")");
    let target = to_lowercase(word);
    let mut found = false;
    let mut i: usize = 0;
    while i < unique.len()
        invariant
            us == string_views(unique@),
            target@ == lowercase(word@),
            i <= unique.len(),
            found == (exists|k: int| 0 <= k < i && lowercase(#[trigger] us[k]) == lowercase(word@)),
        decreases unique.len() - i,
    {
        let lw = to_lowercase(unique[i].as_str());
        if lw == target {
            assert(lowercase(us[i as int]) == lowercase(word@));
            found = true;
        }
        i = i + 1;
    }
    let mut msg = head;
    if found {
        if unique.len() != 1 {
            let list = quoted_list(&unique);
            msg.append("\nat least one of ");
            msg.append(list.as_str());
            msg.append(" matches '");
            msg.append(word);
            msg.append("'.");
        }
        (Some(true), msg)
    } else if unique.len() == 1 {
        msg.append("\nbut '");
        msg.append(unique[0].as_str());
        msg.append("' does not match '");
        msg.append(word);
        msg.append("'!");
        (Some(false), msg)
    } else {
        let list = quoted_list(&unique);
        msg.append("\nbut none of ");
        msg.append(list.as_str());
        msg.append(" match '");
        msg.append(word);
        msg.append("'!");
        (Some(false), msg)
    }
}

/// The Etymonline verdict and message on an entry page found at `url`.
pub fn etym_verdict(word: &str, url: &str, dom: &Vec<DomNode>) -> (r: (Option<bool>, String))
    requires
        has_root_spec(dom@),
    ensures
        (r.0, r.1@) == etym_spec(word@, url@, dom@),
{
    let body = match find_body_index(dom) {
        Some(i) => i,
        None => 2,
    };
    let path = vec![
        (body, "body", None),
        (1usize, "div", Some(DomOpts::with_id("root"))),
        (0usize, "div", None),
        (0usize, "div", Some(DomOpts::with_class("container--1mazc"))),
        (1usize, "div", Some(DomOpts::with_class("main"))),
        (0usize, "div", Some(DomOpts::with_class("ant-row-flex"))),
        (0usize, "div", Some(DomOpts::with_class("ant-col-lg-17"))),
    ];
    assert(path_view(path@) =~= etym_path(body as int));
    match domstroll("etym", false, dom, path.as_slice()) {
        Ok(col) => {
            let tags = element_children(dom, col);
            proof { lemma_element_children(dom@, col as int); }
            let ghost ts = element_children_spec(dom@, col as int);
            if tags.len() >= 3 && element_named(dom, tags[0], "h2") && element_named(dom, tags[1], "p")
                && element_named(dom, tags[2], "p") {
                return (None, String::from_str("Not in Etymonline"));
            }
            let mut words: Vec<String> = Vec::new();
            let mut i: usize = 0;
            while i < tags.len()
                invariant
                    tags@.len() == ts.len(),
                    forall|k: int| 0 <= k < tags@.len() ==> tags@[k] as int == #[trigger] ts[k],
                    forall|k: int| 0 <= k < ts.len() ==> 0 <= #[trigger] ts[k] < dom@.len(),
                    i <= tags.len(),
                    string_views(words@) == section_words(dom@, ts.take(i as int)),
                decreases tags.len() - i,
            {
                assert(ts.take(i + 1).drop_last() =~= ts.take(i as int));
                assert(ts.take(i + 1).last() == ts[i as int]);
                let k = tags[i];
                if word_section(dom, k) {
                    match read_section_word(dom, k) {
                        Some(w) => {
                            proof { lemma_string_views_push(words@, w); }
                            words.push(w);
                        },
                        None => {},
                    }
                }
                i = i + 1;
            }
            assert(ts.take(tags.len() as int) =~= ts);
            etym_words_verdict(word, url, &words)
        },
        Err(_) => etym_fetch_failed(),
    }
}

/// The heading word of every word section among `tags` is read.
pub proof fn lemma_section_words_complete(nodes: Seq<DomNode>, tags: Seq<int>, i: int)
    requires
        0 <= i < tags.len(),
        is_word_section(nodes, tags[i]),
        section_word(nodes, tags[i]) is Some,
    ensures
        section_words(nodes, tags).contains(section_word(nodes, tags[i])->0),
    decreases tags.len(),
{
    let w = section_word(nodes, tags[i])->0;
    if i == tags.len() - 1 {
        let r = section_words(nodes, tags);
        assert(r[r.len() - 1] == w);
    } else {
        lemma_section_words_complete(nodes, tags.drop_last(), i);
        let rest = section_words(nodes, tags.drop_last());
        let k = choose|k: int| 0 <= k < rest.len() && rest[k] == w;
        assert(section_words(nodes, tags)[k] == w);
    }
}

/// Every word read is the heading word of some word section among `tags`.
pub proof fn lemma_section_words_sound(nodes: Seq<DomNode>, tags: Seq<int>, k: int)
    requires
        0 <= k < section_words(nodes, tags).len(),
    ensures
        exists|i: int|
            0 <= i < tags.len() && is_word_section(nodes, tags[i]) && #[trigger] section_word(nodes, tags[i])
                == Some(section_words(nodes, tags)[k]),
    decreases tags.len(),
{
    let rest = section_words(nodes, tags.drop_last());
    if k < rest.len() {
        lemma_section_words_sound(nodes, tags.drop_last(), k);
        let i = choose|i: int|
            0 <= i < tags.drop_last().len() && is_word_section(nodes, tags.drop_last()[i])
                && #[trigger] section_word(nodes, tags.drop_last()[i]) == Some(rest[k]);
        assert(tags[i] == tags.drop_last()[i]);
        assert(section_words(nodes, tags)[k] == rest[k]);
    } else {
        assert(tags[tags.len() - 1] == tags.last());
    }
}

/// Dropping repetitions keeps exactly the words there were.
pub proof fn lemma_dedupe_contains(ws: Seq<Seq<char>>, x: Seq<char>)
    ensures
        dedupe(ws).contains(x) <==> ws.contains(x),
    decreases ws.len(),
{
    if ws.len() > 0 {
        lemma_dedupe_contains(ws.drop_last(), x);
        let d = dedupe(ws.drop_last());
        if ws.drop_last().contains(x) {
            let j = choose|j: int| 0 <= j < ws.drop_last().len() && ws.drop_last()[j] == x;
            assert(ws[j] == x);
        }
        if ws.contains(x) && !ws.drop_last().contains(x) {
            let j = choose|j: int| 0 <= j < ws.len() && ws[j] == x;
            if j < ws.len() - 1 {
                assert(ws.drop_last()[j] == x);
            }
            assert(x == ws.last());
            if !d.contains(x) {
                assert(dedupe(ws)[d.len() as int] == x);
            }
        }
        if dedupe(ws).contains(x) && !d.contains(x) {
            let j = choose|j: int| 0 <= j < dedupe(ws).len() && dedupe(ws)[j] == x;
            assert(j == d.len());
            assert(ws[ws.len() - 1] == x);
        }
        if d.contains(x) {
            let j = choose|j: int| 0 <= j < d.len() && d[j] == x;
            assert(dedupe(ws)[j] == x);
        }
    }
}

/// The column that Etymonline reads, when the walk reaches it.
pub open spec fn etym_column(nodes: Seq<DomNode>) -> Result<int, Seq<char>> {
    domstroll_spec(
        nodes,
        "etym"@,
        etym_path(
            match body_index_spec(nodes) {
                Some(i) => i,
                None => 2,
            },
        ),
    )
}

/// Whether the column's element children start `h2, p, p` (the page of a
/// word Etymonline does not have).
pub open spec fn not_in_etymonline(nodes: Seq<DomNode>, tags: Seq<int>) -> bool {
    tags.len() >= 3 && is_element_named(nodes, tags[0], "h2"@) && is_element_named(nodes, tags[1], "p"@)
        && is_element_named(nodes, tags[2], "p"@)
}

/// On an entry page, Etymonline has the word when some word section among the
/// column's element children is headed by it, ignoring case; and it does not
/// have it when no word section is.
pub proof fn lemma_etym_found_iff_a_section_matches(word: Seq<char>, url: Seq<char>, nodes: Seq<DomNode>, col: int)
    requires
        etym_column(nodes) == Ok::<int, Seq<char>>(col),
        !not_in_etymonline(nodes, element_children_spec(nodes, col)),
    ensures
        ({
            let tags = element_children_spec(nodes, col);
            &&& (exists|i: int|
                0 <= i < tags.len() && is_word_section(nodes, tags[i])
                    && #[trigger] section_word(nodes, tags[i]) is Some
                    && lowercase(section_word(nodes, tags[i])->0) == lowercase(word))
                ==> etym_spec(word, url, nodes).0 == Some(true)
            &&& (forall|i: int|
                0 <= i < tags.len() && is_word_section(nodes, tags[i]) && #[trigger] section_word(nodes, tags[i]) is Some
                    ==> lowercase(section_word(nodes, tags[i])->0) != lowercase(word))
                ==> etym_spec(word, url, nodes).0 == Some(false)
        }),
{
    let tags = element_children_spec(nodes, col);
    let ws = section_words(nodes, tags);
    let unique = dedupe(ws);
    if exists|i: int|
        0 <= i < tags.len() && is_word_section(nodes, tags[i]) && #[trigger] section_word(nodes, tags[i]) is Some
            && lowercase(section_word(nodes, tags[i])->0) == lowercase(word) {
        let i = choose|i: int|
            0 <= i < tags.len() && is_word_section(nodes, tags[i]) && #[trigger] section_word(nodes, tags[i]) is Some
                && lowercase(section_word(nodes, tags[i])->0) == lowercase(word);
        let w = section_word(nodes, tags[i])->0;
        lemma_section_words_complete(nodes, tags, i);
        lemma_dedupe_contains(ws, w);
        let j = choose|j: int| 0 <= j < unique.len() && unique[j] == w;
        assert(lowercase(unique[j]) == lowercase(word));
        assert(any_matches(unique, word));
    }
    if forall|i: int|
        0 <= i < tags.len() && is_word_section(nodes, tags[i]) && #[trigger] section_word(nodes, tags[i]) is Some
            ==> lowercase(section_word(nodes, tags[i])->0) != lowercase(word) {
        assert forall|j: int| 0 <= j < unique.len() implies lowercase(#[trigger] unique[j]) != lowercase(word) by {
            lemma_dedupe_contains(ws, unique[j]);
            assert(unique.contains(unique[j]));
            let k = choose|k: int| 0 <= k < ws.len() && ws[k] == unique[j];
            lemma_section_words_sound(nodes, tags, k);
            let i = choose|i: int|
                0 <= i < tags.len() && is_word_section(nodes, tags[i]) && #[trigger] section_word(nodes, tags[i])
                    == Some(ws[k]);
            assert(section_word(nodes, tags[i]) is Some);
        }
        assert(!any_matches(unique, word));
    }
}

} // verus!
