//! Replacement by regular expression.
use vstd::prelude::*;

verus! {

/// What `regex::Regex::replace` makes of a text, for the expression that
/// `regex::Regex::new` compiles from a pattern: the text with the first
/// match, the leftmost, replaced; none where the pattern does not compile.
pub uninterp spec fn regex_replaced(pattern: Seq<char>, text: Seq<char>, rep: Seq<char>) -> Option<
    Seq<char>,
>;

/// `regex::Regex::new`, then `regex::Regex::replace` on the expression that
/// it gives: the result depends on the pattern, the text and the
/// replacement alone. A pattern that does not compile gives none.
#[verifier::external_body]
pub(crate) fn regex_replace(pattern: &str, text: &str, rep: &str) -> (r: Option<String>)
    ensures
        match r {
            Some(s) => regex_replaced(pattern@, text@, rep@) == Some(s@),
            None => regex_replaced(pattern@, text@, rep@) is None,
        },
{
    match regex::Regex::new(pattern) {
        Ok(re) => Some(re.replace(text, rep).into_owned()),
        Err(_) => None,
    }
}

/// The text with the first match of the pattern replaced, or the text
/// itself where the pattern does not compile.
pub open spec fn first_replaced(pattern: Seq<char>, text: Seq<char>, rep: Seq<char>) -> Seq<char> {
    match regex_replaced(pattern, text, rep) {
        Some(s) => s,
        None => text,
    }
}

/// Replaces the first match of the pattern in the text; a pattern that
/// does not compile leaves the text as it is.
pub fn replace_first(pattern: &str, text: &str, rep: &str) -> (r: String)
    ensures
        r@ == first_replaced(pattern@, text@, rep@),
{
    match regex_replace(pattern, text, rep) {
        Some(s) => s,
        None => text.to_owned(),
    }
}

} // verus!
