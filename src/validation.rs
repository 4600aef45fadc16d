//! Validation of the domain names that rules are submitted for.
use vstd::prelude::*;

verus! {

/// Whether the regex crate compiles `pattern` (`None` where it does not)
/// and, if so, whether the pattern matches somewhere in `text`.
pub uninterp spec fn regex_match(pattern: Seq<char>, text: Seq<char>) -> Option<bool>;

/// Labels of letters, digits, dots and hyphens, ending in a dot and a
/// top-level label of at least two letters.
pub open spec fn domain_pattern() -> Seq<char> {
    "^[a-zA-Z0-9.-]+\\.[a-zA-Z]{2,}$"@
}

/// `domain` has the shape of a domain name.
pub open spec fn is_domain(domain: Seq<char>) -> bool {
    regex_match(domain_pattern(), domain) == Some(true)
}

/// Relies on regex::Regex::new and Regex::is_match.
#[verifier::external_body]
fn pattern_matches(pattern: &str, text: &str) -> (r: Option<bool>)
    ensures
        r == regex_match(pattern@, text@),
{
    match regex::Regex::new(pattern) {
        Ok(re) => Some(re.is_match(text)),
        Err(_) => None,
    }
}

/// Whether `domain` has the shape of a domain name.
pub fn is_valid_domain(domain: &str) -> (r: bool)
    ensures
        r == is_domain(domain@),
{
    match pattern_matches("^[a-zA-Z0-9.-]+\\.[a-zA-Z]{2,}$", domain) {
        Some(m) => m,
        None => false,
    }
}

} // verus!
