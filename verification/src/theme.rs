//! Per-dictionary display themes: an emoji and a terminal colour for each
//! dictionary name, and the coloured one-line label built from them.

use vstd::prelude::*;
use vstd::string::*;
use crate::checkers::{Dictionary, dictionary_name_spec};
use crate::text::str_eq;
use colored::{Color, Colorize};

verus! {

/// Dictionary theme with color, emoji, and branding.
pub struct DictTheme {
    pub emoji: &'static str,
    pub color_name: &'static str,
}

/// The (emoji, colour name) theme of a dictionary, by display name.
pub open spec fn theme_spec(name: Seq<char>) -> (Seq<char>, Seq<char>) {
    if name == "American Heritage"@ {
        ("🔵"@, "blue"@)
    } else if name == "Cambridge"@ {
        ("🟢"@, "green"@)
    } else if name == "Chambers"@ {
        ("🟣"@, "magenta"@)
    } else if name == "Dictionary.com"@ {
        ("🟠"@, "yellow"@)
    } else if name == "Etymonline"@ {
        ("📚"@, "cyan"@)
    } else if name == "Longman"@ {
        ("📖"@, "white"@)
    } else if name == "Merriam-Webster"@ {
        ("🔴"@, "red"@)
    } else if name == "OED"@ {
        ("👑"@, "bright_magenta"@)
    } else if name == "Oxford Learners"@ {
        ("🎓"@, "bright_cyan"@)
    } else if name == "Wordnet"@ {
        ("🧠"@, "bright_blue"@)
    } else if name == "Wordnik"@ {
        ("💬"@, "bright_green"@)
    } else if name == "Wiktionary"@ {
        ("🌍"@, "bright_yellow"@)
    } else if name == "Urban Dictionary"@ {
        ("🔥"@, "bright_red"@)
    } else {
        ("❓"@, "white"@)
    }
}

/// Get theme for a dictionary by name.
pub fn get_theme(dict_name: &str) -> (t: DictTheme)
    ensures
        (t.emoji@, t.color_name@) == theme_spec(dict_name@),
{
    if str_eq(dict_name, "American Heritage") {
        DictTheme { emoji: "🔵", color_name: "blue" }
    } else if str_eq(dict_name, "Cambridge") {
        DictTheme { emoji: "🟢", color_name: "green" }
    } else if str_eq(dict_name, "Chambers") {
        DictTheme { emoji: "🟣", color_name: "magenta" }
    } else if str_eq(dict_name, "Dictionary.com") {
        DictTheme { emoji: "🟠", color_name: "yellow" }
    } else if str_eq(dict_name, "Etymonline") {
        DictTheme { emoji: "📚", color_name: "cyan" }
    } else if str_eq(dict_name, "Longman") {
        DictTheme { emoji: "📖", color_name: "white" }
    } else if str_eq(dict_name, "Merriam-Webster") {
        DictTheme { emoji: "🔴", color_name: "red" }
    } else if str_eq(dict_name, "OED") {
        DictTheme { emoji: "👑", color_name: "bright_magenta" }
    } else if str_eq(dict_name, "Oxford Learners") {
        DictTheme { emoji: "🎓", color_name: "bright_cyan" }
    } else if str_eq(dict_name, "Wordnet") {
        DictTheme { emoji: "🧠", color_name: "bright_blue" }
    } else if str_eq(dict_name, "Wordnik") {
        DictTheme { emoji: "💬", color_name: "bright_green" }
    } else if str_eq(dict_name, "Wiktionary") {
        DictTheme { emoji: "🌍", color_name: "bright_yellow" }
    } else if str_eq(dict_name, "Urban Dictionary") {
        DictTheme { emoji: "🔥", color_name: "bright_red" }
    } else {
        DictTheme { emoji: "❓", color_name: "white" }
    }
}

/// The terminal foreground colours that themes use.
#[derive(Clone, Copy, Debug, PartialEq, Eq, Structural)]
pub enum DictColor {
    Blue,
    Green,
    Magenta,
    Yellow,
    Cyan,
    White,
    Red,
    BrightMagenta,
    BrightCyan,
    BrightBlue,
    BrightGreen,
    BrightYellow,
    BrightRed,
}

/// The colour a theme's colour name stands for; unknown names give white.
pub open spec fn color_spec(name: Seq<char>) -> DictColor {
    if name == "blue"@ {
        DictColor::Blue
    } else if name == "green"@ {
        DictColor::Green
    } else if name == "magenta"@ {
        DictColor::Magenta
    } else if name == "yellow"@ {
        DictColor::Yellow
    } else if name == "cyan"@ {
        DictColor::Cyan
    } else if name == "white"@ {
        DictColor::White
    } else if name == "red"@ {
        DictColor::Red
    } else if name == "bright_magenta"@ {
        DictColor::BrightMagenta
    } else if name == "bright_cyan"@ {
        DictColor::BrightCyan
    } else if name == "bright_blue"@ {
        DictColor::BrightBlue
    } else if name == "bright_green"@ {
        DictColor::BrightGreen
    } else if name == "bright_yellow"@ {
        DictColor::BrightYellow
    } else if name == "bright_red"@ {
        DictColor::BrightRed
    } else {
        DictColor::White
    }
}

/// The colour named by a theme's colour name.
pub fn color_from_name(name: &str) -> (c: DictColor)
    ensures
        c == color_spec(name@),
{
    if str_eq(name, "blue") {
        DictColor::Blue
    } else if str_eq(name, "green") {
        DictColor::Green
    } else if str_eq(name, "magenta") {
        DictColor::Magenta
    } else if str_eq(name, "yellow") {
        DictColor::Yellow
    } else if str_eq(name, "cyan") {
        DictColor::Cyan
    } else if str_eq(name, "white") {
        DictColor::White
    } else if str_eq(name, "red") {
        DictColor::Red
    } else if str_eq(name, "bright_magenta") {
        DictColor::BrightMagenta
    } else if str_eq(name, "bright_cyan") {
        DictColor::BrightCyan
    } else if str_eq(name, "bright_blue") {
        DictColor::BrightBlue
    } else if str_eq(name, "bright_green") {
        DictColor::BrightGreen
    } else if str_eq(name, "bright_yellow") {
        DictColor::BrightYellow
    } else if str_eq(name, "bright_red") {
        DictColor::BrightRed
    } else {
        DictColor::White
    }
}

/// The ANSI foreground code of a colour (the SGR parameter).
pub open spec fn ansi_fg_code(c: DictColor) -> Seq<char> {
    match c {
        DictColor::Red => "31"@,
        DictColor::Green => "32"@,
        DictColor::Yellow => "33"@,
        DictColor::Blue => "34"@,
        DictColor::Magenta => "35"@,
        DictColor::Cyan => "36"@,
        DictColor::White => "37"@,
        DictColor::BrightRed => "91"@,
        DictColor::BrightGreen => "92"@,
        DictColor::BrightYellow => "93"@,
        DictColor::BrightBlue => "94"@,
        DictColor::BrightMagenta => "95"@,
        DictColor::BrightCyan => "96"@,
    }
}

/// The ANSI escape sequence that sets colour `c` as the foreground.
pub open spec fn ansi_style(c: DictColor) -> Seq<char> {
    "\x1B["@ + ansi_fg_code(c) + "m"@
}

/// `s` with `style` inserted after every reset sequence `ESC [0m` it holds,
/// so that a reset inside a coloured text does not end its colour.
pub open spec fn restyle_resets(s: Seq<char>, style: Seq<char>) -> Seq<char>
    decreases s.len(),
{
    if s.len() == 0 {
        Seq::empty()
    } else if s.len() >= 4 && s.subrange(0, 4) == "\x1B[0m"@ {
        "\x1B[0m"@ + style + restyle_resets(s.subrange(4, s.len() as int), style)
    } else {
        seq![s[0]] + restyle_resets(s.drop_first(), style)
    }
}

/// `text` in colour `c`: the colour's escape sequence, the text with the
/// colour set again after each reset it holds, and a reset.
pub open spec fn ansi_painted(c: DictColor, text: Seq<char>) -> Seq<char> {
    ansi_style(c) + restyle_resets(text, ansi_style(c)) + "\x1B[0m"@
}

/// Whether `text` may be the rendering of `plain` in colour `c`: either the
/// plain text (when the terminal environment turns colouring off) or the
/// text painted in the colour.
pub open spec fn painted_as(text: Seq<char>, c: DictColor, plain: Seq<char>) -> bool {
    text == plain || text == ansi_painted(c, plain)
}

/// Renders `text` in colour `c`.
///
/// Trusted: calls `Colorize::color` of the `colored` crate and formats the
/// `ColoredString` with `Display`.  In its source that display is the input
/// unchanged when the environment (`CLICOLOR`, `NO_COLOR`, `CLICOLOR_FORCE`,
/// a terminal on stdout, or an override) turns colouring off, and otherwise
/// `ESC [ <fg code> m`, the input with that same sequence inserted after each
/// `ESC [0m` it holds (`escape_inner_reset_sequences`), and `ESC [0m`.
/// Which of the two comes out is not stated: it depends on the environment.
#[verifier::external_body]
fn paint(text: &str, c: DictColor) -> (res: String)
    ensures
        painted_as(res@, c, text@),
{
    let color = match c {
        DictColor::Red => Color::Red, DictColor::Green => Color::Green,
        DictColor::Yellow => Color::Yellow, DictColor::Blue => Color::Blue,
        DictColor::Magenta => Color::Magenta, DictColor::Cyan => Color::Cyan,
        DictColor::White => Color::White, DictColor::BrightRed => Color::BrightRed,
        DictColor::BrightGreen => Color::BrightGreen, DictColor::BrightYellow => Color::BrightYellow,
        DictColor::BrightBlue => Color::BrightBlue, DictColor::BrightMagenta => Color::BrightMagenta,
        DictColor::BrightCyan => Color::BrightCyan,
    };
    text.color(color).to_string()
}

/// The status mark of a checker outcome, with its colour:
/// found is a green tick, not found a red cross, unknown a yellow question mark.
pub open spec fn status_spec(found: Option<bool>) -> (Seq<char>, DictColor) {
    match found {
        Some(true) => ("✓"@, DictColor::Green),
        Some(false) => ("✗"@, DictColor::Red),
        None => ("?"@, DictColor::Yellow),
    }
}

/// Whether `label` is a rendering of the coloured label of `dict_name` with
/// outcome `found`: the theme's emoji, the coloured status mark, a space and
/// the coloured name, where each coloured part is as `painted_as` allows.
pub open spec fn colored_label(label: Seq<char>, dict_name: Seq<char>, found: Option<bool>) -> bool {
    exists|status: Seq<char>, name: Seq<char>|
        #![trigger painted_as(status, status_spec(found).1, status_spec(found).0), painted_as(name, color_spec(theme_spec(dict_name).1), dict_name)]
        {
        &&& painted_as(status, status_spec(found).1, status_spec(found).0)
        &&& painted_as(name, color_spec(theme_spec(dict_name).1), dict_name)
        &&& label == theme_spec(dict_name).0 + status + " "@ + name
    }
}

/// Format a dictionary name with color and emoji.
pub fn format_dict_colored(dict_name: &str, found: Option<bool>) -> (res: String)
    ensures
        colored_label(res@, dict_name@, found),
{
    let theme = get_theme(dict_name);
    let status = match found {
        Some(true) => paint("✓", DictColor::Green),
        Some(false) => paint("✗", DictColor::Red),
        None => paint("?", DictColor::Yellow),
    };
    let color = color_from_name(theme.color_name);
    let name = paint(dict_name, color);
    let mut res = String::from_str(theme.emoji);
    res.append(status.as_str());
    res.append(" ");
    res.append(name.as_str());
    assert(painted_as(status@, status_spec(found).1, status_spec(found).0));
    assert(painted_as(name@, color_spec(theme_spec(dict_name@).1), dict_name@));
    res
}

/// The emoji of a dictionary's theme, as a character.
spec fn dictionary_emoji(d: Dictionary) -> char {
    match d {
        Dictionary::AmericanHeritage => '🔵',
        Dictionary::Cambridge => '🟢',
        Dictionary::Chambers => '🟣',
        Dictionary::DictionaryCom => '🟠',
        Dictionary::Etymonline => '📚',
        Dictionary::Longman => '📖',
        Dictionary::MerriamWebster => '🔴',
        Dictionary::Oed => '👑',
        Dictionary::OxfordLearners => '🎓',
        Dictionary::Wordnet => '🧠',
        Dictionary::Wordnik => '💬',
        Dictionary::Wiktionary => '🌍',
        Dictionary::UrbanDictionary => '🔥',
    }
}

/// The theme of a dictionary that is checked is the one named after it.
proof fn lemma_theme_emoji(d: Dictionary)
    ensures
        theme_spec(dictionary_name_spec(d)).0 == seq![dictionary_emoji(d)],
{
    reveal_strlit("American Heritage");
    reveal_strlit("Cambridge");
    reveal_strlit("Chambers");
    reveal_strlit("Dictionary.com");
    reveal_strlit("Etymonline");
    reveal_strlit("Longman");
    reveal_strlit("Merriam-Webster");
    reveal_strlit("OED");
    reveal_strlit("Oxford Learners");
    reveal_strlit("Wordnet");
    reveal_strlit("Wordnik");
    reveal_strlit("Wiktionary");
    reveal_strlit("Urban Dictionary");
    reveal_strlit("🔵");
    reveal_strlit("🟢");
    reveal_strlit("🟣");
    reveal_strlit("🟠");
    reveal_strlit("📚");
    reveal_strlit("📖");
    reveal_strlit("🔴");
    reveal_strlit("👑");
    reveal_strlit("🎓");
    reveal_strlit("🧠");
    reveal_strlit("💬");
    reveal_strlit("🌍");
    reveal_strlit("🔥");
    // Names of different lengths differ.
    assert("American Heritage"@.len() == 17);
    assert("Cambridge"@.len() == 9);
    assert("Chambers"@.len() == 8);
    assert("Dictionary.com"@.len() == 14);
    assert("Etymonline"@.len() == 10);
    assert("Longman"@.len() == 7);
    assert("Merriam-Webster"@.len() == 15);
    assert("OED"@.len() == 3);
    assert("Oxford Learners"@.len() == 15);
    assert("Wordnet"@.len() == 7);
    assert("Wordnik"@.len() == 7);
    assert("Wiktionary"@.len() == 10);
    assert("Urban Dictionary"@.len() == 16);
    let n = dictionary_name_spec(d);
    // Names of equal length that come first differ from the name at these
    // positions.
    match d {
        Dictionary::OxfordLearners => {
            assert(n[0] != "Merriam-Webster"@[0]);
        },
        Dictionary::Wordnet => {
            assert(n[0] != "Longman"@[0]);
        },
        Dictionary::Wordnik => {
            assert(n[0] != "Longman"@[0]);
            assert(n[5] != "Wordnet"@[5]);
        },
        Dictionary::Wiktionary => {
            assert(n[0] != "Etymonline"@[0]);
        },
        _ => {},
    }
    assert(theme_spec(n).0 =~= seq![dictionary_emoji(d)]);
}

/// Every dictionary that is checked has a theme of its own: its label never
/// shows the emoji kept for unknown names.
pub proof fn lemma_every_dictionary_has_a_theme(d: Dictionary)
    ensures
        theme_spec(dictionary_name_spec(d)).0 != "❓"@,
{
    reveal_strlit("❓");
    lemma_theme_emoji(d);
    assert(seq![dictionary_emoji(d)][0] != "❓"@[0]);
}

/// Two different dictionaries that are checked show different emoji.
pub proof fn lemma_themes_differ(d1: Dictionary, d2: Dictionary)
    requires
        d1 != d2,
    ensures
        theme_spec(dictionary_name_spec(d1)).0 != theme_spec(dictionary_name_spec(d2)).0,
{
    lemma_theme_emoji(d1);
    lemma_theme_emoji(d2);
    assert(seq![dictionary_emoji(d1)][0] != seq![dictionary_emoji(d2)][0]);
}

} // verus!
