//! The boundary with the URL parser: a single trusted wrapper that parses a
//! URL string and hands back its authority as a plain string. Everything
//! downstream of it is verified against the name `parsed_authority`.

use vstd::prelude::*;

verus! {

/// The authority (host, optionally with userinfo and port, as the URL
/// parser serializes it) of the URL that the given string parses as, or
/// `None` when the string is not a valid absolute URL.
pub uninterp spec fn parsed_authority(url: Seq<char>) -> Option<Seq<char>>;

/// Relies on `url::Url::parse` and `url::Url::authority`: whether a string
/// parses as an absolute URL, and the authority of the URL it parses as,
/// depend on the characters of the string alone.
#[verifier::external_body]
pub(crate) fn url_authority(url: &str) -> (r: Option<String>)
    ensures
        r is Some <==> parsed_authority(url@) is Some,
        r matches Some(a) ==> parsed_authority(url@) == Some(a@),
{
    match url::Url::parse(url) {
        Ok(u) => Some(u.authority().to_string()),
        Err(_) => None,
    }
}

} // verus!
