//! Types and calls of the HTTP and identity crates, with the contracts that
//! the rest of the library takes on trust.

use vstd::prelude::*;
use reqwest::header::HeaderMap;
use reqwest::header::CONNECTION;

verus! {

/// `gcp_auth::Error`: why the identity service gave no token. Carried
/// through; the library never looks inside.
#[verifier::external_type_specification]
#[verifier::external_body]
pub struct ExAuthError(gcp_auth::Error);

/// `reqwest::Error`: why the transport gave no response. Carried through;
/// the library never looks inside.
#[verifier::external_type_specification]
#[verifier::external_body]
pub struct ExTransportError(reqwest::Error);

/// `reqwest::Response`: status, headers and a body that is still to be
/// read. Carried through; the library never looks inside.
#[verifier::external_type_specification]
#[verifier::external_body]
pub struct ExResponse(reqwest::Response);

/// `reqwest::header::HeaderValue`: the value of one header. It is named here
/// because the values of a [`HeaderMap`] are of this type; the library holds
/// none by itself.
#[verifier::external_type_specification]
#[verifier::external_body]
pub struct ExHeaderValue(reqwest::header::HeaderValue);

/// `reqwest::header::HeaderMap`: the headers of a request. What a map holds
/// is named by [`header_entries`].
#[verifier::external_type_specification]
#[verifier::external_body]
#[verifier::reject_recursive_types(T)]
pub struct ExHeaderMap<T>(reqwest::header::HeaderMap<T>);

/// The header names that a map holds, in lower case as the map keeps them,
/// each with the first value stored under it: the value that `HeaderMap::get`
/// returns, its bytes read as characters.
pub uninterp spec fn header_entries(headers: HeaderMap) -> Map<Seq<char>, Seq<char>>;

/// The contents of a map without entries.
pub open spec fn no_headers() -> Map<Seq<char>, Seq<char>> {
    Map::empty()
}

/// Text that can stand in a header value as it is: printable ASCII, space
/// and tab.
pub open spec fn is_header_text(text: Seq<char>) -> bool {
    forall|i: int| 0 <= i < text.len() ==> (32 <= text[i] as u32 <= 126 || text[i] == '\t')
}

/// `HeaderMap::new`: a map without entries.
#[verifier::external_body]
pub(crate) fn empty_headers() -> (headers: HeaderMap)
    ensures
        header_entries(headers) == no_headers(),
{
    HeaderMap::new()
}

/// `HeaderMap::insert` under the name `CONNECTION`, on a map without
/// entries: afterwards the map holds `value` under `connection` and nothing
/// else. The value is parsed by `HeaderValue::from_str`, which accepts every
/// text of [`is_header_text`] and keeps it byte for byte. `insert` panics
/// only on a map that has grown to its size limit, which an empty one has
/// not.
#[verifier::external_body]
pub(crate) fn insert_connection(headers: &mut HeaderMap, value: &str)
    requires
        header_entries(*old(headers)) == no_headers(),
        is_header_text(value@),
    ensures
        header_entries(*final(headers)) == header_entries(*old(headers)).insert(
            "connection"@,
            value@,
        ),
{
    headers.insert(CONNECTION, value.parse().unwrap());
}

} // verus!
