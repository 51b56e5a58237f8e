//! The body limit: which bodies may be stored, and what is answered in
//! place of one that may not.

use crate::message::{Header, Response};
use crate::model::{too_large_response, TOO_LARGE_STATUS};
use crate::text::{literal_bytes, to_decimal};
use vstd::prelude::*;

verus! {

/// A response body was longer than the limit allows.
#[derive(Clone, Copy, Debug, PartialEq, Eq)]
pub struct BodyTooLarge {
    /// The limit, in bytes, that the body exceeded.
    pub limit: usize,
}

/// Admits a body of at most `limit` bytes, unchanged, and refuses a longer
/// one.
pub fn materialize(body: Vec<u8>, limit: usize) -> (admitted: Result<Vec<u8>, BodyTooLarge>)
    ensures
        admitted is Ok <==> body.len() <= limit,
        admitted matches Ok(kept) ==> kept == body,
        admitted matches Err(refusal) ==> refusal.limit == limit,
{
    if body.len() <= limit {
        Ok(body)
    } else {
        Err(BodyTooLarge { limit })
    }
}

impl BodyTooLarge {
    /// The response that is sent in place of the oversized one: a server
    /// error whose body names the limit.
    pub fn into_response(self) -> (response: Response)
        ensures
            response@ == too_large_response(self.limit),
    {
        let mut headers: Vec<Header> = Vec::new();
        headers.push((literal_bytes("content-type"), literal_bytes("text/plain; charset=utf-8")));
        let mut body = literal_bytes("File too big, over ");
        let mut digits = to_decimal(self.limit as u128);
        body.append(&mut digits);
        let mut tail = literal_bytes(" bytes");
        body.append(&mut tail);
        let response = Response { status: TOO_LARGE_STATUS, headers, body };
        assert(response@.headers =~= too_large_response(self.limit).headers);
        assert(response@.body =~= too_large_response(self.limit).body);
        response
    }
}

} // verus!
