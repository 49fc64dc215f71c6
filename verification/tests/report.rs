use isaword::report::{report_lines, result_message, single_report_lines};
use isaword::CheckerResult;

fn r(name: &'static str, result: Option<bool>, is_community: bool) -> CheckerResult {
    CheckerResult { name, result, is_community }
}

#[test]
fn message_when_found_nowhere() {
    let rs = vec![r("Cambridge", Some(false), false), r("Wiktionary", None, true)];
    assert_eq!(result_message("xyz", &rs), "No sign of 'xyz' in any dictionary I checked!");
}

#[test]
fn message_when_there_are_no_results() {
    assert_eq!(result_message("xyz", &[]), "No sign of 'xyz' in any dictionary I checked!");
}

#[test]
fn message_when_found_everywhere() {
    let rs = vec![r("Cambridge", Some(true), false), r("Wiktionary", Some(true), true)];
    assert_eq!(result_message("cat", &rs), "'cat' is in every dictionary I checked!");
}

#[test]
fn message_when_only_in_one_community_dictionary() {
    let rs = vec![r("Cambridge", Some(false), false), r("Wiktionary", Some(true), true)];
    assert_eq!(
        result_message("yeet", &rs),
        "'yeet' is only in Wiktionary, not in any professionally edited dictionary!"
    );
}

#[test]
fn message_when_only_in_one_professional_dictionary() {
    let rs = vec![r("Cambridge", Some(true), false), r("Longman", Some(false), false), r("OED", None, false)];
    assert_eq!(
        result_message("zyx", &rs),
        "Hmm 'zyx' is in Cambridge, but not in any other dictionary!"
    );
}

#[test]
fn message_when_only_in_community_dictionaries() {
    let rs = vec![
        r("Cambridge", Some(false), false),
        r("Wiktionary", Some(true), true),
        r("Urban Dictionary", Some(true), true),
    ];
    assert_eq!(
        result_message("yeet", &rs),
        "'yeet' is only in Wiktionary and Urban Dictionary but not in any professionally edited dictionary!"
    );
}

#[test]
fn message_of_the_readme_example() {
    let rs = vec![
        r("American Heritage", None, false),
        r("Cambridge", Some(true), false),
        r("Longman", Some(false), false),
        r("Wiktionary", Some(true), true),
        r("Urban Dictionary", Some(true), true),
    ];
    assert_eq!(
        result_message("hello", &rs),
        "'hello' is in Cambridge, Wiktionary, and Urban Dictionary but not in Longman"
    );
}

#[test]
fn message_lists_the_missing_with_or() {
    let rs = vec![
        r("Cambridge", Some(true), false),
        r("Wiktionary", Some(true), true),
        r("Longman", Some(false), false),
        r("OED", Some(false), false),
        r("Wordnet", Some(false), false),
    ];
    assert_eq!(
        result_message("x", &rs),
        "'x' is in Cambridge and Wiktionary but not in Longman, OED, or Wordnet"
    );
}

#[test]
fn message_when_found_and_otherwise_unknown() {
    let rs = vec![r("Cambridge", Some(true), false), r("Wiktionary", Some(true), true), r("Longman", None, false)];
    assert_eq!(result_message("x", &rs), "'x' is in Cambridge and Wiktionary at least...");
}

#[test]
fn report_lines_of_the_readme_example() {
    let rs = vec![
        r("American Heritage", None, false),
        r("Cambridge", Some(true), false),
        r("Longman", Some(false), false),
        r("Wiktionary", Some(true), true),
        r("Urban Dictionary", Some(true), true),
    ];
    let lines = report_lines("hello", &rs);
    assert_eq!(lines.len(), 6);
    assert!(lines[0].starts_with("[ISAWORD] in: "));
    assert!(lines[0].contains("Cambridge"));
    assert!(lines[0].contains("Urban Dictionary"));
    assert_eq!(lines[1], "[ISAWORD] in 1 professional dictionaries vs 2 community dictionaries");
    assert!(lines[2].starts_with("[ISAWORD] not in: "));
    assert!(lines[2].contains("Longman"));
    assert!(lines[3].starts_with("[ISAWORD] null: "));
    assert!(lines[3].contains("American Heritage"));
    assert_eq!(lines[4], "");
    assert_eq!(lines[5], "'hello' is in Cambridge, Wiktionary, and Urban Dictionary but not in Longman");
}

#[test]
fn report_lines_when_found_nowhere() {
    let rs = vec![r("Cambridge", Some(false), false)];
    let lines = report_lines("xyz", &rs);
    assert_eq!(lines.len(), 4);
    assert_eq!(lines[0], "[ISAWORD] in: none");
    assert!(lines[1].starts_with("[ISAWORD] not in: "));
    assert_eq!(lines[2], "");
    assert_eq!(lines[3], "No sign of 'xyz' in any dictionary I checked!");
}

#[test]
fn single_check_lines() {
    let res = r("Wordnik", Some(true), false);
    let lines = single_report_lines("cat", &res);
    assert_eq!(lines.len(), 2);
    assert_eq!(lines[0], "[ISAWORD] Checking 'cat' in Wordnik");
    assert!(lines[1].contains("Wordnik"));
    assert!(lines[1].starts_with("💬"));
}
