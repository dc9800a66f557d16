//! Response assembly: the headers and body the handler sends back. A
//! resolved artifact yields a 200 with its exact content length, an
//! attachment disposition carrying the artifact name, and the
//! `sha256-`-prefixed integrity hash; the body is the payload for GET
//! requests and empty for every other method. Each of the three
//! not-found branches yields a bare 404 with an empty body.

use vstd::prelude::*;

use crate::hashing::{content_hash_value, spec_content_hash};

verus! {

/// The outgoing response, as plain values: a status code, the three
/// artifact headers (absent on the not-found path), and the body bytes.
pub struct HandlerResponse {
    pub status: u16,
    pub content_length: Option<usize>,
    pub content_disposition: Option<String>,
    pub content_hash: Option<String>,
    pub body: Vec<u8>,
}

/// The attachment disposition for an artifact name:
/// `attachment; filename="<name>.zip"`.
pub open spec fn spec_content_disposition(name: Seq<char>) -> Seq<char> {
    "attachment; filename=\""@ + name + ".zip\""@
}

/// Renders the `Content-Disposition` value for an artifact name.
pub fn content_disposition_value(name: &str) -> (r: String)
    ensures
        r@ == spec_content_disposition(name@),
{
    let mut value = String::from_str("attachment; filename=\"");
    value.append(name);
    value.append(".zip\"");
    value
}

/// The response for each of the not-found outcomes: a 404 with an
/// empty body and none of the artifact headers.
pub fn not_found() -> (r: HandlerResponse)
    ensures
        r.status == 404u16,
        r.content_length is None,
        r.content_disposition is None,
        r.content_hash is None,
        r.body@ == Seq::<u8>::empty(),
{
    HandlerResponse {
        status: 404,
        content_length: None,
        content_disposition: None,
        content_hash: None,
        body: Vec::new(),
    }
}

/// Assembles the successful response for a resolved artifact: a 200
/// whose `Content-Length` is exactly the payload length, whose
/// disposition names the artifact, and whose integrity header is
/// `sha256-` plus the lowercase hex SHA-256 digest of the payload. The
/// payload becomes the body only for a GET request; any other method
/// gets the same status and headers over an empty body. The payload
/// must stay below the SHA-256 input limit of `2^61` bytes.
pub fn success_response(is_get: bool, artifact_name: &str, payload: Vec<u8>) -> (r:
    HandlerResponse)
    requires
        payload@.len() < 0x2000000000000000,
    ensures
        r.status == 200u16,
        r.content_length == Some(payload@.len() as usize),
        r.content_disposition matches Some(d) && d@ == spec_content_disposition(
            artifact_name@,
        ),
        r.content_hash matches Some(h) && h@ == spec_content_hash(payload@),
        is_get ==> r.body@ == payload@,
        !is_get ==> r.body@ == Seq::<u8>::empty(),
{
    let hash = content_hash_value(payload.as_slice());
    let disposition = content_disposition_value(artifact_name);
    let length = payload.len();
    let body = if is_get {
        payload
    } else {
        Vec::new()
    };
    HandlerResponse {
        status: 200,
        content_length: Some(length),
        content_disposition: Some(disposition),
        content_hash: Some(hash),
        body,
    }
}

} // verus!
