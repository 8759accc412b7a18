//! Names of accounts, as the system holds them and as they are shown.
use vstd::prelude::*;
use super::text::{lowercase, replace, str_replace, str_to_lowercase};

verus! {

/// What `titlecase::titlecase` makes of a text: the text in title case.
pub uninterp spec fn title_cased(text: Seq<char>) -> Seq<char>;

/// The longest text, in characters, that is put in title case.
pub const TITLE_MAX: usize = 256;

/// `titlecase::titlecase`: the text in title case, which depends on the
/// text alone. The function works through the opening brackets before a
/// word by calling itself once for each, so that a text of very many of
/// them could use up the stack: long texts are left out.
#[verifier::external_body]
fn title_case(text: &str) -> (r: String)
    requires
        text@.len() <= TITLE_MAX,
    ensures
        r@ == title_cased(text@),
{
    titlecase::titlecase(text)
}

/// The account name for a name as it is shown: in lower case, with an
/// underscore for every space.
pub open spec fn account_name(formatted: Seq<char>) -> Seq<char> {
    replace(lowercase(formatted), seq![' '], seq!['_'])
}

/// The shown form of an account name: a space for every underscore, in
/// title case. A name of more than `TITLE_MAX` characters is not put in
/// title case.
pub open spec fn formatted_name(name: Seq<char>) -> Seq<char> {
    let spaced = replace(name, seq!['_'], seq![' ']);
    if spaced.len() <= TITLE_MAX {
        title_cased(spaced)
    } else {
        spaced
    }
}

/// The account name for a name as it is shown.
pub fn to_account_name(formatted: &str) -> (r: String)
    ensures
        r@ == account_name(formatted@),
{
    proof {
        reveal_strlit(" ");
        reveal_strlit("_");
        assert(" "@ =~= seq![' ']);
        assert("_"@ =~= seq!['_']);
    }
    let lower = str_to_lowercase(formatted);
    str_replace(lower.as_str(), " ", "_")
}

/// The shown form of an account name.
pub fn to_formatted_name(name: &str) -> (r: String)
    ensures
        r@ == formatted_name(name@),
{
    proof {
        reveal_strlit(" ");
        reveal_strlit("_");
        assert(" "@ =~= seq![' ']);
        assert("_"@ =~= seq!['_']);
    }
    let spaced = str_replace(name, "_", " ");
    if spaced.as_str().unicode_len() <= TITLE_MAX {
        title_case(spaced.as_str())
    } else {
        spaced
    }
}

} // verus!
