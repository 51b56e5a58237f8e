//! The snapshot of a successful response that the store keeps.

use crate::clock::{age_seconds, seconds_between};
use crate::message::{
    copy_headers, headers_view, is_success, set_header, with_header, Header, HeaderSeq, Response,
    ResponseView,
};
use crate::text::{decimal, literal, literal_bytes, to_decimal};
use vstd::prelude::*;

verus! {

/// A response kept in the store: status, headers and body of a successful
/// response, and the clock reading at which it was made if responses are to
/// be annotated with their age.
#[derive(Debug)]
pub struct CachedResponse {
    status: u16,
    headers: Vec<Header>,
    body: Vec<u8>,
    timestamp: Option<u128>,
}

/// The mathematical form of a [`CachedResponse`].
pub struct CachedView {
    pub status: u16,
    pub headers: HeaderSeq,
    pub body: Seq<u8>,
    pub timestamp: Option<u128>,
}

/// The name of the header that carries a served response's age.
pub open spec fn age_header_name() -> Seq<u8> {
    literal("X-Cache-Age")
}

/// The response served from a cached value at clock reading `now`: status and
/// body as stored; the stored headers, with the age in whole seconds set
/// if the value carries its creation time.
pub open spec fn served(value: CachedView, now: u128) -> ResponseView {
    ResponseView {
        status: value.status,
        headers: match value.timestamp {
            Some(created) => with_header(
                value.headers,
                age_header_name(),
                decimal(age_seconds(created, now)),
            ),
            None => value.headers,
        },
        body: value.body,
    }
}

impl View for CachedResponse {
    type V = CachedView;

    closed spec fn view(&self) -> CachedView {
        CachedView {
            status: self.status,
            headers: headers_view(self.headers@),
            body: self.body@,
            timestamp: self.timestamp,
        }
    }
}

impl Clone for CachedResponse {
    fn clone(&self) -> (copy: Self)
        ensures
            copy@ == self@,
    {
        proof {
            use_type_invariant(self);
        }
        CachedResponse {
            status: self.status,
            headers: copy_headers(&self.headers),
            body: self.body.clone(),
            timestamp: self.timestamp,
        }
    }
}

impl CachedResponse {
    #[verifier::type_invariant]
    spec fn success_class(&self) -> bool {
        is_success(self.status)
    }

    /// Builds the snapshot of a successful response.
    pub(crate) fn new(
        status: u16,
        headers: Vec<Header>,
        body: Vec<u8>,
        timestamp: Option<u128>,
    ) -> (value: Self)
        requires
            is_success(status),
        ensures
            value@ == (CachedView {
                status,
                headers: headers_view(headers@),
                body: body@,
                timestamp,
            }),
    {
        CachedResponse { status, headers, body, timestamp }
    }

    /// The stored status, which is always in the success class.
    pub fn status(&self) -> (status: u16)
        ensures
            status == self@.status,
            is_success(status),
    {
        proof {
            use_type_invariant(self);
        }
        self.status
    }

    /// The stored body.
    pub fn body(&self) -> (body: &Vec<u8>)
        ensures
            body@ == self@.body,
    {
        &self.body
    }

    /// The stored headers.
    pub fn headers(&self) -> (headers: &Vec<Header>)
        ensures
            headers_view(headers@) == self@.headers,
    {
        &self.headers
    }

    /// The clock reading at which the value was made, if it was recorded.
    pub fn timestamp(&self) -> (timestamp: Option<u128>)
        ensures
            timestamp == self@.timestamp,
    {
        self.timestamp
    }

    /// Turns the value into the response served at clock reading `now`.
    pub fn into_response(self, now: u128) -> (response: Response)
        ensures
            response@ == served(self@, now),
            is_success(response.status),
    {
        proof {
            use_type_invariant(&self);
        }
        let headers = match self.timestamp {
            Some(created) => {
                let age = seconds_between(created, now);
                set_header(self.headers, literal_bytes("X-Cache-Age"), to_decimal(age))
            },
            None => self.headers,
        };
        Response { status: self.status, headers, body: self.body }
    }
}

} // verus!
