use isaword::human_friendly_list_formatter;

#[test]
fn test_empty() {
    assert_eq!(human_friendly_list_formatter(&[], "and"), "");
}

#[test]
fn test_single() {
    assert_eq!(human_friendly_list_formatter(&["apple"], "and"), "apple");
}

#[test]
fn test_two() {
    assert_eq!(
        human_friendly_list_formatter(&["apple", "banana"], "and"),
        "apple and banana"
    );
}

#[test]
fn test_three() {
    assert_eq!(
        human_friendly_list_formatter(&["apple", "banana", "cherry"], "and"),
        "apple, banana, and cherry"
    );
}

#[test]
fn test_with_or() {
    assert_eq!(
        human_friendly_list_formatter(&["a", "b", "c"], "or"),
        "a, b, or c"
    );
}

#[test]
fn four_items_take_commas_and_a_final_conjunction() {
    assert_eq!(
        human_friendly_list_formatter(&["a", "b", "c", "d"], "and"),
        "a, b, c, and d"
    );
}

#[test]
fn two_items_take_no_comma() {
    assert_eq!(human_friendly_list_formatter(&["Wordnet", "OED"], "or"), "Wordnet or OED");
}

#[test]
fn empty_items_are_kept() {
    assert_eq!(human_friendly_list_formatter(&["", "x", ""], "and"), ", x, and ");
}
