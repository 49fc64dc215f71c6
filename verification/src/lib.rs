//! isaword: decide whether a word appears in a set of online dictionaries,
//! and report the findings in a human-friendly way.

pub mod text;
pub mod format;
pub mod theme;
pub mod checkers;
pub mod report;
pub mod select;
pub mod dom;
pub mod json;
pub mod earl;

pub use format::human_friendly_list_formatter;
pub use theme::{get_theme, format_dict_colored};
pub use checkers::CheckerResult;
pub use dom::domstroll;
pub use earl::Earl;
