//! URL parsing and endpoint resolution.
//!
//! A URL is held as its serialization: the text that parsing it produced.
use vstd::prelude::*;

verus! {

/// The serialization of the URL that `s` parses to, if it parses.
pub uninterp spec fn parsed_url(s: Seq<char>) -> Option<Seq<char>>;

/// The serialization of `path` resolved against the URL `base`, if both
/// parse.
pub uninterp spec fn joined_url(base: Seq<char>, path: Seq<char>) -> Option<Seq<char>>;

/// Relies on `url::Url::parse` and the `String` it serializes to. Parsing
/// needs a scheme, which ends at a `':'`: without one, and so on the empty
/// string, it fails.
#[verifier::external_body]
pub(crate) fn parse_url(s: &str) -> (r: Result<String, url::ParseError>)
    ensures
        match r {
            Ok(u) => parsed_url(s@) == Some(u@),
            Err(_) => parsed_url(s@) is None,
        },
        (forall|i: int| 0 <= i < s@.len() ==> s@[i] != ':') ==> r is Err,
{
    url::Url::parse(s).map(String::from)
}

/// Relies on `url::Url::join`, on the base read back with `url::Url::parse`,
/// and on the `String` the result serializes to.
#[verifier::external_body]
pub(crate) fn join_url(base: &str, path: &str) -> (r: Result<String, url::ParseError>)
    ensures
        match r {
            Ok(u) => joined_url(base@, path@) == Some(u@),
            Err(_) => joined_url(base@, path@) is None,
        },
{
    url::Url::parse(base)?.join(path).map(String::from)
}

/// Endpoint of the server's self-description.
pub open spec fn info_path() -> Seq<char> {
    "/api/v2/info"@
}

/// Endpoint of the collection of pastes.
pub open spec fn pastes_path() -> Seq<char> {
    "/api/v2/pastes"@
}

/// Endpoint of the paste `id`, with the id substituted verbatim.
pub open spec fn paste_path(id: Seq<char>) -> Seq<char> {
    "/api/v2/pastes/"@ + id
}

/// Builds the endpoint path of the paste `id`.
pub fn paste_path_of(id: &str) -> (r: String)
    ensures
        r@ == paste_path(id@),
{
    let mut p = String::from_str("/api/v2/pastes/");
    p.append(id);
    p
}

} // verus!
