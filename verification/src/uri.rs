//! URI texts, validated and canonicalized by the `url` crate.

use vstd::prelude::*;

verus! {

/// What parsing a text as an absolute URL yields: its canonical
/// serialization, or nothing where the text is not a parseable URL.
pub uninterp spec fn url_canon(s: Seq<char>) -> Option<Seq<char>>;

/// Relies on `url::Url::parse`; the result depends on the text alone.  A
/// parsed URL comes back in its canonical serialization.
#[verifier::external_body]
pub(crate) fn parse_url(s: &str) -> (r: Option<String>)
    ensures
        match r {
            Some(c) => url_canon(s@) == Some(c@),
            None => url_canon(s@) is None,
        },
{
    match url::Url::parse(s) {
        Ok(u) => Some(String::from(u)),
        Err(_) => None,
    }
}

} // verus!
