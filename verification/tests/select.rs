use isaword::checkers::Dictionary;
use isaword::checkers::all_dictionaries;
use isaword::select::{checker_single_name_to_lowercase, dictionary_for_name, unknown_dictionary_lines};

#[test]
fn names_are_lowered_and_hyphenated() {
    assert_eq!(checker_single_name_to_lowercase("American_Heritage"), "american-heritage");
    assert_eq!(checker_single_name_to_lowercase("OED"), "oed");
    assert_eq!(checker_single_name_to_lowercase("merriam-webster"), "merriam-webster");
    assert_eq!(checker_single_name_to_lowercase("__"), "--");
}

#[test]
fn names_and_aliases_select_dictionaries() {
    let cases = [
        ("american-heritage", Dictionary::AmericanHeritage),
        ("AHD", Dictionary::AmericanHeritage),
        ("American_Heritage", Dictionary::AmericanHeritage),
        ("Cambridge", Dictionary::Cambridge),
        ("chambers", Dictionary::Chambers),
        ("dictcom", Dictionary::DictionaryCom),
        ("Dictionary_Com", Dictionary::DictionaryCom),
        ("etym", Dictionary::Etymonline),
        ("longman", Dictionary::Longman),
        ("MW", Dictionary::MerriamWebster),
        ("oed", Dictionary::Oed),
        ("Oxford", Dictionary::OxfordLearners),
        ("oxlearn", Dictionary::OxfordLearners),
        ("wordnet", Dictionary::Wordnet),
        ("wordnik", Dictionary::Wordnik),
        ("wikt", Dictionary::Wiktionary),
        ("Urban_Dictionary", Dictionary::UrbanDictionary),
        ("urban", Dictionary::UrbanDictionary),
    ];
    for (name, d) in cases {
        assert_eq!(dictionary_for_name(name), Some(d), "{}", name);
    }
}

#[test]
fn unknown_names_select_nothing() {
    assert_eq!(dictionary_for_name("collins"), None);
    assert_eq!(dictionary_for_name(""), None);
    assert_eq!(dictionary_for_name("oxford learners"), None);
}

#[test]
fn lines_for_an_unknown_dictionary() {
    let lines = unknown_dictionary_lines("collins");
    assert_eq!(lines.len(), 15);
    assert_eq!(lines[0], "[ISAWORD] Unknown dictionary: collins");
    assert_eq!(lines[1], "Available dictionaries:");
    assert_eq!(lines[2], "  - american-heritage");
    assert_eq!(lines[8], "  - merriam-webster");
    assert_eq!(lines[13], "  - wiktionary");
    assert_eq!(lines[14], "  - urban-dictionary");
}

#[test]
fn dictionaries_in_report_order() {
    let names: Vec<&str> = all_dictionaries().into_iter().map(|d| d.name()).collect();
    assert_eq!(
        names,
        vec![
            "American Heritage", "Cambridge", "Chambers", "Dictionary.com", "Etymonline", "Longman",
            "Merriam-Webster", "OED", "Oxford Learners", "Wordnet", "Wordnik", "Wiktionary",
            "Urban Dictionary",
        ]
    );
    let community: Vec<bool> = all_dictionaries().into_iter().map(|d| d.is_community()).collect();
    assert_eq!(community.iter().filter(|c| **c).count(), 2);
    assert!(community[11] && community[12]);
}
