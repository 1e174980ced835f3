//! Trusted boundary to the `url` crate: absolute-URL validation and
//! URL joining, with the results named by uninterpreted spec functions.

use vstd::prelude::*;

verus! {

/// The serialization of `url::Url::parse(s)`: `Some` exactly when `s` parses
/// as an absolute URL, `None` otherwise. WHATWG URL parsing is a pure
/// function of the input text.
pub uninterp spec fn parsed_url(s: Seq<char>) -> Option<Seq<char>>;

/// The serialization of `url::Url::parse(base)` joined with `reference` by
/// `url::Url::join`; `None` when the base does not parse as an absolute URL
/// or when the reference cannot be resolved against it.
pub uninterp spec fn joined_url(base: Seq<char>, reference: Seq<char>) -> Option<Seq<char>>;

/// Relies on `url::Url::parse`, which returns `Ok` exactly when the input is
/// a valid absolute URL, and on `String::from`, which returns that URL's
/// serialization; both are deterministic functions of the input text.
#[verifier::external_body]
pub(crate) fn parse_url(s: &str) -> (result: Option<String>)
    ensures
        result is Some <==> parsed_url(s@) is Some,
        result matches Some(u) ==> parsed_url(s@) == Some(u@),
{
    match url::Url::parse(s) {
        Ok(u) => Some(String::from(u)),
        Err(_) => None,
    }
}

/// Relies on `url::Url::parse` applied to the base and `url::Url::join`
/// applied to the reference: both deterministic functions of their text
/// inputs; either step's `Err` becomes `None` here.
#[verifier::external_body]
pub(crate) fn join_url(base: &str, reference: &str) -> (result: Option<String>)
    ensures
        result is Some <==> joined_url(base@, reference@) is Some,
        result matches Some(u) ==> joined_url(base@, reference@) == Some(u@),
{
    match url::Url::parse(base) {
        Ok(b) => match b.join(reference) {
            Ok(u) => Some(String::from(u)),
            Err(_) => None,
        },
        Err(_) => None,
    }
}

} // verus!
