//! Choosing a single dictionary by a user-supplied name.

use vstd::prelude::*;
use vstd::string::*;
use crate::checkers::{Dictionary, all_dictionaries, all_dictionaries_spec};
use crate::report::string_views;
use crate::text::{chars_of, chars_eq, string_from_chars, str_eq};

verus! {

/// The lower-case form of a string, as `str::to_lowercase` computes it
/// (full Unicode case mapping).
pub uninterp spec fn lowercase(s: Seq<char>) -> Seq<char>;

/// Lower-cases a string.
///
/// Trusted: calls `str::to_lowercase`, whose result std defines by the
/// Unicode `Lowercase` mapping of each character; that mapping is a function
/// of the input alone and is named `lowercase` here, not spelled out.
#[verifier::external_body]
pub(crate) fn to_lowercase(s: &str) -> (r: String)
    ensures
        r@ == lowercase(s@),
{
    s.to_lowercase()
}

/// `s` with every underscore replaced by a hyphen.
pub open spec fn hyphenate(s: Seq<char>) -> Seq<char> {
    s.map_values(|c: char| if c == '_' { '-' } else { c })
}

/// The normal form of a dictionary name: lower case, underscores as hyphens.
pub open spec fn normalized_name(s: Seq<char>) -> Seq<char> {
    hyphenate(lowercase(s))
}

/// The normal form of a dictionary name given on the command line:
/// lower-cased, with each `_` replaced by `-`.
pub fn checker_single_name_to_lowercase(name: &str) -> (r: String)
    ensures
        r@ == normalized_name(name@),
{
    let lower = to_lowercase(name);
    let cs = chars_of(lower.as_str());
    let mut out: Vec<char> = Vec::new();
    let mut i: usize = 0;
    while i < cs.len()
        invariant
            i <= cs.len(),
            cs@ == lowercase(name@),
            out@ == hyphenate(cs@.take(i as int)),
        decreases cs.len() - i,
    {
        let c = cs[i];
        if c == '_' {
            out.push('-');
        } else {
            out.push(c);
        }
        i = i + 1;
        assert(out@ =~= hyphenate(cs@.take(i as int)));
    }
    assert(cs@.take(cs.len() as int) =~= cs@);
    string_from_chars(&out)
}

/// The dictionary that a normalized name selects, if any.
pub open spec fn dictionary_for_spec(n: Seq<char>) -> Option<Dictionary> {
    if n == "american-heritage"@ || n == "american_heritage"@ || n == "ahd"@ {
        Some(Dictionary::AmericanHeritage)
    } else if n == "cambridge"@ {
        Some(Dictionary::Cambridge)
    } else if n == "chambers"@ {
        Some(Dictionary::Chambers)
    } else if n == "dictionary-com"@ || n == "dictionary_com"@ || n == "dictcom"@ {
        Some(Dictionary::DictionaryCom)
    } else if n == "etymonline"@ || n == "etym"@ {
        Some(Dictionary::Etymonline)
    } else if n == "longman"@ {
        Some(Dictionary::Longman)
    } else if n == "merriam-webster"@ || n == "merriam_webster"@ || n == "mw"@ {
        Some(Dictionary::MerriamWebster)
    } else if n == "oed"@ {
        Some(Dictionary::Oed)
    } else if n == "oxford-learners"@ || n == "oxford_learners"@ || n == "oxford"@ || n == "oxlearn"@ {
        Some(Dictionary::OxfordLearners)
    } else if n == "wordnet"@ {
        Some(Dictionary::Wordnet)
    } else if n == "wordnik"@ {
        Some(Dictionary::Wordnik)
    } else if n == "wiktionary"@ || n == "wikt"@ {
        Some(Dictionary::Wiktionary)
    } else if n == "urban-dictionary"@ || n == "urban_dictionary"@ || n == "urban"@ {
        Some(Dictionary::UrbanDictionary)
    } else {
        None
    }
}

/// The dictionary that a user-supplied name selects, if any: the name is
/// normalized (lower case, `_` as `-`) and compared with the known names and
/// their aliases.
pub fn dictionary_for_name(dictionary: &str) -> (r: Option<Dictionary>)
    ensures
        r == dictionary_for_spec(normalized_name(dictionary@)),
{
    let norm = checker_single_name_to_lowercase(dictionary);
    let n = norm.as_str();
    if str_eq(n, "american-heritage") || str_eq(n, "american_heritage") || str_eq(n, "ahd") {
        Some(Dictionary::AmericanHeritage)
    } else if str_eq(n, "cambridge") {
        Some(Dictionary::Cambridge)
    } else if str_eq(n, "chambers") {
        Some(Dictionary::Chambers)
    } else if str_eq(n, "dictionary-com") || str_eq(n, "dictionary_com") || str_eq(n, "dictcom") {
        Some(Dictionary::DictionaryCom)
    } else if str_eq(n, "etymonline") || str_eq(n, "etym") {
        Some(Dictionary::Etymonline)
    } else if str_eq(n, "longman") {
        Some(Dictionary::Longman)
    } else if str_eq(n, "merriam-webster") || str_eq(n, "merriam_webster") || str_eq(n, "mw") {
        Some(Dictionary::MerriamWebster)
    } else if str_eq(n, "oed") {
        Some(Dictionary::Oed)
    } else if str_eq(n, "oxford-learners") || str_eq(n, "oxford_learners") || str_eq(n, "oxford")
        || str_eq(n, "oxlearn") {
        Some(Dictionary::OxfordLearners)
    } else if str_eq(n, "wordnet") {
        Some(Dictionary::Wordnet)
    } else if str_eq(n, "wordnik") {
        Some(Dictionary::Wordnik)
    } else if str_eq(n, "wiktionary") || str_eq(n, "wikt") {
        Some(Dictionary::Wiktionary)
    } else if str_eq(n, "urban-dictionary") || str_eq(n, "urban_dictionary") || str_eq(n, "urban") {
        Some(Dictionary::UrbanDictionary)
    } else {
        None
    }
}

/// The name under which a dictionary is listed for selection.
pub open spec fn dictionary_key_spec(d: Dictionary) -> Seq<char> {
    match d {
        Dictionary::AmericanHeritage => "american-heritage"@,
        Dictionary::Cambridge => "cambridge"@,
        Dictionary::Chambers => "chambers"@,
        Dictionary::DictionaryCom => "dictionary-com"@,
        Dictionary::Etymonline => "etymonline"@,
        Dictionary::Longman => "longman"@,
        Dictionary::MerriamWebster => "merriam-webster"@,
        Dictionary::Oed => "oed"@,
        Dictionary::OxfordLearners => "oxford-learners"@,
        Dictionary::Wordnet => "wordnet"@,
        Dictionary::Wordnik => "wordnik"@,
        Dictionary::Wiktionary => "wiktionary"@,
        Dictionary::UrbanDictionary => "urban-dictionary"@,
    }
}

impl Dictionary {
    /// The name under which this dictionary is listed for selection.
    pub fn key(self) -> (k: &'static str)
        ensures
            k@ == dictionary_key_spec(self),
    {
        match self {
            Dictionary::AmericanHeritage => "american-heritage",
            Dictionary::Cambridge => "cambridge",
            Dictionary::Chambers => "chambers",
            Dictionary::DictionaryCom => "dictionary-com",
            Dictionary::Etymonline => "etymonline",
            Dictionary::Longman => "longman",
            Dictionary::MerriamWebster => "merriam-webster",
            Dictionary::Oed => "oed",
            Dictionary::OxfordLearners => "oxford-learners",
            Dictionary::Wordnet => "wordnet",
            Dictionary::Wordnik => "wordnik",
            Dictionary::Wiktionary => "wiktionary",
            Dictionary::UrbanDictionary => "urban-dictionary",
        }
    }
}

/// Every listed name, as a normalized name, selects its own dictionary.
pub proof fn lemma_key_selects(d: Dictionary)
    ensures
        dictionary_for_spec(dictionary_key_spec(d)) == Some(d),
{
    reveal_strlit("american-heritage");
    reveal_strlit("american_heritage");
    reveal_strlit("ahd");
    reveal_strlit("cambridge");
    reveal_strlit("chambers");
    reveal_strlit("dictionary-com");
    reveal_strlit("dictionary_com");
    reveal_strlit("dictcom");
    reveal_strlit("etymonline");
    reveal_strlit("etym");
    reveal_strlit("longman");
    reveal_strlit("merriam-webster");
    reveal_strlit("merriam_webster");
    reveal_strlit("mw");
    reveal_strlit("oed");
    reveal_strlit("oxford-learners");
    reveal_strlit("oxford_learners");
    reveal_strlit("oxford");
    reveal_strlit("oxlearn");
    reveal_strlit("wordnet");
    reveal_strlit("wordnik");
    reveal_strlit("wiktionary");
    reveal_strlit("wikt");
    reveal_strlit("urban-dictionary");
    reveal_strlit("urban_dictionary");
    reveal_strlit("urban");
    // Names of different lengths differ.
    assert("american-heritage"@.len() == 17);
    assert("american_heritage"@.len() == 17);
    assert("ahd"@.len() == 3);
    assert("cambridge"@.len() == 9);
    assert("chambers"@.len() == 8);
    assert("dictionary-com"@.len() == 14);
    assert("dictionary_com"@.len() == 14);
    assert("dictcom"@.len() == 7);
    assert("etymonline"@.len() == 10);
    assert("etym"@.len() == 4);
    assert("longman"@.len() == 7);
    assert("merriam-webster"@.len() == 15);
    assert("merriam_webster"@.len() == 15);
    assert("mw"@.len() == 2);
    assert("oed"@.len() == 3);
    assert("oxford-learners"@.len() == 15);
    assert("oxford_learners"@.len() == 15);
    assert("oxford"@.len() == 6);
    assert("oxlearn"@.len() == 7);
    assert("wordnet"@.len() == 7);
    assert("wordnik"@.len() == 7);
    assert("wiktionary"@.len() == 10);
    assert("wikt"@.len() == 4);
    assert("urban-dictionary"@.len() == 16);
    assert("urban_dictionary"@.len() == 16);
    assert("urban"@.len() == 5);
    let k = dictionary_key_spec(d);
    // Names of equal length that the selection tries first differ from the
    // key at these positions.
    match d {
        Dictionary::Longman => {
            assert(k[0] != "dictcom"@[0]);
        },
        Dictionary::Oed => {
            assert(k[0] != "ahd"@[0]);
        },
        Dictionary::OxfordLearners => {
            assert(k[0] != "merriam-webster"@[0]);
            assert(k[0] != "merriam_webster"@[0]);
        },
        Dictionary::Wordnet => {
            assert(k[0] != "dictcom"@[0]);
            assert(k[0] != "longman"@[0]);
            assert(k[0] != "oxlearn"@[0]);
        },
        Dictionary::Wordnik => {
            assert(k[0] != "dictcom"@[0]);
            assert(k[0] != "longman"@[0]);
            assert(k[0] != "oxlearn"@[0]);
            assert(k[5] != "wordnet"@[5]);
        },
        Dictionary::Wiktionary => {
            assert(k[0] != "etymonline"@[0]);
        },
        _ => {},
    }
}

/// The lines printed for an unknown dictionary name: the name, then every
/// dictionary's listed name.
pub open spec fn unknown_dictionary_spec(dictionary: Seq<char>) -> Seq<Seq<char>> {
    seq!["[ISAWORD] Unknown dictionary: "@ + dictionary, "Available dictionaries:"@]
        + all_dictionaries_spec().map_values(|d: Dictionary| "  - "@ + dictionary_key_spec(d))
}

/// The lines printed for an unknown dictionary name.
pub fn unknown_dictionary_lines(dictionary: &str) -> (lines: Vec<String>)
    ensures
        string_views(lines@) == unknown_dictionary_spec(dictionary@),
{
    let mut lines: Vec<String> = Vec::new();
    let mut first = String::from_str("[ISAWORD] Unknown dictionary: ");
    first.append(dictionary);
    lines.push(first);
    lines.push(String::from_str("Available dictionaries:"));
    let ds = all_dictionaries();
    let ghost head = seq!["[ISAWORD] Unknown dictionary: "@ + dictionary@, "Available dictionaries:"@];
    assert(string_views(lines@) =~= head);
    let mut i: usize = 0;
    while i < ds.len()
        invariant
            ds@ == all_dictionaries_spec(),
            i <= ds.len(),
            string_views(lines@) =~= head + ds@.take(i as int).map_values(|d: Dictionary| "  - "@ + dictionary_key_spec(d)),
        decreases ds.len() - i,
    {
        let mut line = String::from_str("  - ");
        line.append(ds[i].key());
        let ghost before = lines@;
        lines.push(line);
        assert(string_views(lines@) =~= string_views(before).push(line@));
        assert(ds@.take(i + 1).map_values(|d: Dictionary| "  - "@ + dictionary_key_spec(d))
            =~= ds@.take(i as int).map_values(|d: Dictionary| "  - "@ + dictionary_key_spec(d)).push("  - "@ + dictionary_key_spec(ds@[i as int])));
        i = i + 1;
    }
    assert(ds@.take(ds.len() as int) =~= ds@);
    lines
}

} // verus!
