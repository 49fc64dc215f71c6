use isaword::{format_dict_colored, get_theme};

#[test]
fn theme_of_each_dictionary() {
    let cases = [
        ("American Heritage", "🔵", "blue"),
        ("Cambridge", "🟢", "green"),
        ("Chambers", "🟣", "magenta"),
        ("Dictionary.com", "🟠", "yellow"),
        ("Etymonline", "📚", "cyan"),
        ("Longman", "📖", "white"),
        ("Merriam-Webster", "🔴", "red"),
        ("OED", "👑", "bright_magenta"),
        ("Oxford Learners", "🎓", "bright_cyan"),
        ("Wordnet", "🧠", "bright_blue"),
        ("Wordnik", "💬", "bright_green"),
        ("Wiktionary", "🌍", "bright_yellow"),
        ("Urban Dictionary", "🔥", "bright_red"),
    ];
    for (name, emoji, color) in cases {
        let t = get_theme(name);
        assert_eq!(t.emoji, emoji);
        assert_eq!(t.color_name, color);
    }
}

#[test]
fn theme_of_an_unknown_dictionary() {
    let t = get_theme("Collins");
    assert_eq!(t.emoji, "❓");
    assert_eq!(t.color_name, "white");
}

#[test]
fn theme_names_are_case_sensitive() {
    assert_eq!(get_theme("cambridge").emoji, "❓");
}

fn strip_ansi(s: &str) -> String {
    let mut out = String::new();
    let mut in_escape = false;
    for c in s.chars() {
        if in_escape {
            if c == 'm' {
                in_escape = false;
            }
        } else if c == '\u{1b}' {
            in_escape = true;
        } else {
            out.push(c);
        }
    }
    out
}

#[test]
fn colored_label_of_a_found_word() {
    let s = format_dict_colored("OED", Some(true));
    assert_eq!(strip_ansi(&s), "👑✓ OED");
}

#[test]
fn colored_label_of_a_missing_word() {
    let s = format_dict_colored("Cambridge", Some(false));
    assert_eq!(strip_ansi(&s), "🟢✗ Cambridge");
}

#[test]
fn colored_label_of_an_unknown_outcome() {
    let s = format_dict_colored("Somewhere", None);
    assert_eq!(strip_ansi(&s), "❓? Somewhere");
}

#[test]
fn colored_label_of_a_name_holding_a_reset() {
    let s = format_dict_colored("A\u{1b}[0mB", None);
    let plain = "❓? A\u{1b}[0mB";
    let painted = "❓\u{1b}[33m?\u{1b}[0m \u{1b}[37mA\u{1b}[0m\u{1b}[37mB\u{1b}[0m";
    assert!(s == plain || s == painted, "{:?}", s);
}
