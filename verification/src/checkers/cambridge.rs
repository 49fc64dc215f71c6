//! Cambridge Dictionary.
//!
//! Sends a HEAD request for the entry page: Cambridge serves the page of a
//! word it has and redirects (3xx) to its search results otherwise.
//!
//! URL structure: `https://dictionary.cambridge.org/dictionary/english/WORD`

use vstd::prelude::*;

verus! {

/// Whether an HTTP status is a redirect (300 to 399).
pub fn is_redirect_status(status: u16) -> (b: bool)
    ensures
        b == (300 <= status < 400),
{
    300 <= status && status < 400
}

/// The Cambridge verdict on the status of the HEAD request (`None` when the
/// request failed): found when not redirected.
pub fn cambridge_verdict(status: Option<u16>) -> (r: Option<bool>)
    ensures
        r == (match status {
            Some(s) => Some(!(300 <= s < 400)),
            None => None,
        }),
{
    match status {
        Some(s) => Some(!is_redirect_status(s)),
        None => None,
    }
}

} // verus!
