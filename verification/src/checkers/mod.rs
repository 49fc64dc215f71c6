//! The dictionaries that are checked, and the per-dictionary decisions that
//! turn a fetched page into a verdict.

use vstd::prelude::*;

pub mod ahd;
pub mod cambridge;
pub mod chambers;
pub mod dictcom;
pub mod dispatch;
pub mod etym;
pub mod longman;
pub mod mw;
pub mod oed;
pub mod oxfordlearners;
pub mod urban;
pub mod wikt;
pub mod wordnet;
pub mod wordnik;

verus! {

/// Result of a single dictionary checker.
///
/// - `name`: display name of the dictionary
/// - `result`: `Some(true)` found, `Some(false)` not found, `None` error or unknown
/// - `is_community`: whether the dictionary is user-editable (like Wiktionary)
///   rather than professionally maintained
#[derive(Debug, Clone)]
pub struct CheckerResult {
    pub name: &'static str,
    pub result: Option<bool>,
    pub is_community: bool,
}

/// The dictionaries that are checked, in the order in which they are reported.
#[derive(Clone, Copy, Debug, PartialEq, Eq, Structural)]
pub enum Dictionary {
    AmericanHeritage,
    Cambridge,
    Chambers,
    DictionaryCom,
    Etymonline,
    Longman,
    MerriamWebster,
    Oed,
    OxfordLearners,
    Wordnet,
    Wordnik,
    Wiktionary,
    UrbanDictionary,
}

/// The display name of a dictionary.
pub open spec fn dictionary_name_spec(d: Dictionary) -> Seq<char> {
    match d {
        Dictionary::AmericanHeritage => "American Heritage"@,
        Dictionary::Cambridge => "Cambridge"@,
        Dictionary::Chambers => "Chambers"@,
        Dictionary::DictionaryCom => "Dictionary.com"@,
        Dictionary::Etymonline => "Etymonline"@,
        Dictionary::Longman => "Longman"@,
        Dictionary::MerriamWebster => "Merriam-Webster"@,
        Dictionary::Oed => "OED"@,
        Dictionary::OxfordLearners => "Oxford Learners"@,
        Dictionary::Wordnet => "Wordnet"@,
        Dictionary::Wordnik => "Wordnik"@,
        Dictionary::Wiktionary => "Wiktionary"@,
        Dictionary::UrbanDictionary => "Urban Dictionary"@,
    }
}

/// Whether a dictionary is community-edited: Wiktionary and Urban Dictionary are.
pub open spec fn is_community_spec(d: Dictionary) -> bool {
    d == Dictionary::Wiktionary || d == Dictionary::UrbanDictionary
}

impl Dictionary {
    /// The display name of this dictionary.
    pub fn name(self) -> (n: &'static str)
        ensures
            n@ == dictionary_name_spec(self),
    {
        match self {
            Dictionary::AmericanHeritage => "American Heritage",
            Dictionary::Cambridge => "Cambridge",
            Dictionary::Chambers => "Chambers",
            Dictionary::DictionaryCom => "Dictionary.com",
            Dictionary::Etymonline => "Etymonline",
            Dictionary::Longman => "Longman",
            Dictionary::MerriamWebster => "Merriam-Webster",
            Dictionary::Oed => "OED",
            Dictionary::OxfordLearners => "Oxford Learners",
            Dictionary::Wordnet => "Wordnet",
            Dictionary::Wordnik => "Wordnik",
            Dictionary::Wiktionary => "Wiktionary",
            Dictionary::UrbanDictionary => "Urban Dictionary",
        }
    }

    /// Whether this dictionary is community-edited.
    pub fn is_community(self) -> (b: bool)
        ensures
            b == is_community_spec(self),
    {
        match self {
            Dictionary::Wiktionary => true,
            Dictionary::UrbanDictionary => true,
            _ => false,
        }
    }
}

/// The checker result that reports outcome `result` for dictionary `d`.
pub fn checker_result(d: Dictionary, result: Option<bool>) -> (r: CheckerResult)
    ensures
        r.name@ == dictionary_name_spec(d),
        r.result == result,
        r.is_community == is_community_spec(d),
{
    CheckerResult { name: d.name(), result, is_community: d.is_community() }
}

/// The dictionaries in the order in which they are checked and reported.
pub open spec fn all_dictionaries_spec() -> Seq<Dictionary> {
    seq![
        Dictionary::AmericanHeritage,
        Dictionary::Cambridge,
        Dictionary::Chambers,
        Dictionary::DictionaryCom,
        Dictionary::Etymonline,
        Dictionary::Longman,
        Dictionary::MerriamWebster,
        Dictionary::Oed,
        Dictionary::OxfordLearners,
        Dictionary::Wordnet,
        Dictionary::Wordnik,
        Dictionary::Wiktionary,
        Dictionary::UrbanDictionary,
    ]
}

/// The dictionaries in the order in which they are checked and reported.
pub fn all_dictionaries() -> (v: Vec<Dictionary>)
    ensures
        v@ == all_dictionaries_spec(),
{
    let v = vec![
        Dictionary::AmericanHeritage,
        Dictionary::Cambridge,
        Dictionary::Chambers,
        Dictionary::DictionaryCom,
        Dictionary::Etymonline,
        Dictionary::Longman,
        Dictionary::MerriamWebster,
        Dictionary::Oed,
        Dictionary::OxfordLearners,
        Dictionary::Wordnet,
        Dictionary::Wordnik,
        Dictionary::Wiktionary,
        Dictionary::UrbanDictionary,
    ];
    assert(v@ =~= all_dictionaries_spec());
    v
}

} // verus!
