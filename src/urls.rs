//! Absolute URLs, parsed and resolved by the `url` crate and held as their
//! serialized text.
use vstd::prelude::*;

verus! {

/// The serialized form of the URL that `url::Url::parse` reads from a text,
/// or `None` where the text is not an absolute URL.
pub uninterp spec fn url_parsed(s: Seq<char>) -> Option<Seq<char>>;

/// The serialized form of a reference resolved against a base URL by
/// `url::Url::join`, or `None` where the base is no URL or the reference
/// cannot be resolved against it.
pub uninterp spec fn url_joined(base: Seq<char>, reference: Seq<char>) -> Option<Seq<char>>;

/// An optional text as characters.
pub open spec fn text_of(o: Option<String>) -> Option<Seq<char>> {
    match o {
        Some(s) => Some(s@),
        None => None,
    }
}

/// Relies on `url::Url::parse`, which reads a URL only from a text that
/// holds at least its scheme, and on the URL's serialization, which starts
/// with the scheme and so is never empty.
#[verifier::external_body]
pub(crate) fn parse_url(s: &str) -> (r: Option<String>)
    ensures
        text_of(r) == url_parsed(s@),
        r matches Some(u) ==> u@.len() > 0,
        r is Some ==> s@.len() > 0,
{
    url::Url::parse(s).ok().map(|u| u.to_string())
}

/// Relies on `url::Url::join`, applied to the base read by `url::Url::parse`,
/// and on the serialization of the result.
#[verifier::external_body]
pub(crate) fn join_url(base: &str, reference: &str) -> (r: Option<String>)
    ensures
        text_of(r) == url_joined(base@, reference@),
{
    match url::Url::parse(base) {
        Ok(b) => b.join(reference).ok().map(|u| u.to_string()),
        Err(_) => None,
    }
}

} // verus!
