use isaword::checkers::dispatch::{outcome, request_for, Reply};
use isaword::checkers::{all_dictionaries, checker_result};
use isaword::report::result_message;
use isaword::select::dictionary_for_name;
use isaword::CheckerResult;

fn sample() -> Vec<CheckerResult> {
    let outcomes = [
        None, Some(true), Some(true), None, Some(false), Some(true), None, None, Some(true), None,
        Some(false), Some(true), Some(true),
    ];
    all_dictionaries().into_iter().zip(outcomes).map(|(d, o)| checker_result(d, o)).collect()
}

#[test]
fn every_result_is_in_exactly_one_group() {
    let rs = sample();
    let ins = rs.iter().filter(|r| r.result == Some(true)).count();
    let notins = rs.iter().filter(|r| r.result == Some(false)).count();
    let nulls = rs.iter().filter(|r| r.result.is_none()).count();
    assert_eq!(ins + notins + nulls, rs.len());
}

#[test]
fn found_splits_into_professional_and_community() {
    let rs = sample();
    let ins = rs.iter().filter(|r| r.result == Some(true)).count();
    let pro = rs.iter().filter(|r| !r.is_community && r.result == Some(true)).count();
    let community = rs.iter().filter(|r| r.is_community && r.result == Some(true)).count();
    assert_eq!(pro + community, ins);
    assert_eq!(community, 2);
}

#[test]
fn sample_message_names_the_missing() {
    assert_eq!(
        result_message("cat", &sample()),
        "'cat' is in Cambridge, Chambers, Longman, Oxford Learners, Wiktionary, and Urban Dictionary but not in Etymonline or Wordnik"
    );
}

#[test]
fn a_failed_request_is_unknown_everywhere() {
    for d in all_dictionaries() {
        let e = request_for(d, "word").unwrap();
        assert_eq!(outcome(d, "word", &e, &Reply::Failed), None);
    }
}

#[test]
fn listed_names_select_their_dictionaries() {
    for d in all_dictionaries() {
        assert_eq!(dictionary_for_name(d.key()), Some(d));
    }
}

#[test]
fn every_dictionary_has_a_theme() {
    for d in all_dictionaries() {
        assert_ne!(isaword::get_theme(d.name()).emoji, "❓");
    }
}

#[test]
fn dictionaries_show_different_emoji() {
    let emoji: Vec<&str> = all_dictionaries().into_iter().map(|d| isaword::get_theme(d.name()).emoji).collect();
    for i in 0..emoji.len() {
        for j in 0..i {
            assert_ne!(emoji[i], emoji[j]);
        }
    }
}

#[test]
fn last_path_segment_is_set_for_every_word_request() {
    let e = request_for(isaword::checkers::Dictionary::Wordnik, "a/b").unwrap();
    assert_eq!(e.get_pathname(), "/words/a/b");
}
