//! Requests and responses as plain values, and the header operations the
//! cache needs.

use crate::text::{names_match, same_name};
use vstd::prelude::*;

verus! {

/// A header: its name and its value, as bytes.
pub type Header = (Vec<u8>, Vec<u8>);

/// The mathematical form of a header list.
pub type HeaderSeq = Seq<(Seq<u8>, Seq<u8>)>;

/// The part of an inbound request that the cache reads.
pub struct Request {
    pub method: Vec<u8>,
    pub uri: Vec<u8>,
    pub headers: Vec<Header>,
}

/// The mathematical form of a [`Request`].
pub struct RequestView {
    pub method: Seq<u8>,
    pub uri: Seq<u8>,
    pub headers: HeaderSeq,
}

/// An outbound response with a fully materialized body.
pub struct Response {
    pub status: u16,
    pub headers: Vec<Header>,
    pub body: Vec<u8>,
}

/// The mathematical form of a [`Response`].
pub struct ResponseView {
    pub status: u16,
    pub headers: HeaderSeq,
    pub body: Seq<u8>,
}

/// The mathematical form of a header list held in a vector.
pub open spec fn headers_view(headers: Seq<Header>) -> HeaderSeq {
    Seq::new(headers.len(), |i: int| (headers[i].0@, headers[i].1@))
}

impl View for Request {
    type V = RequestView;

    open spec fn view(&self) -> RequestView {
        RequestView {
            method: self.method@,
            uri: self.uri@,
            headers: headers_view(self.headers@),
        }
    }
}

impl View for Response {
    type V = ResponseView;

    open spec fn view(&self) -> ResponseView {
        ResponseView {
            status: self.status,
            headers: headers_view(self.headers@),
            body: self.body@,
        }
    }
}

/// A status in the success class: 200 to 299. Every other status,
/// redirects included, counts as a failure.
pub open spec fn is_success(status: u16) -> bool {
    200 <= status && status <= 299
}

/// Some header of the list carries the name, up to ASCII case.
pub open spec fn contains_name(headers: HeaderSeq, name: Seq<u8>) -> bool {
    exists|i: int| 0 <= i < headers.len() && same_name(#[trigger] headers[i].0, name)
}

/// The list without the headers that carry the name, order kept.
pub open spec fn without_name(headers: HeaderSeq, name: Seq<u8>) -> HeaderSeq
    decreases headers.len(),
{
    if headers.len() == 0 {
        Seq::empty()
    } else if same_name(headers.last().0, name) {
        without_name(headers.drop_last(), name)
    } else {
        without_name(headers.drop_last(), name).push(headers.last())
    }
}

/// The list after the header is set: every earlier header of that name is
/// dropped and the new one stands last.
pub open spec fn with_header(headers: HeaderSeq, name: Seq<u8>, value: Seq<u8>) -> HeaderSeq {
    without_name(headers, name).push((name, value))
}

/// No header of `without_name(headers, name)` carries the name, and each of
/// them occurs in `headers`.
pub proof fn lemma_without_name(headers: HeaderSeq, name: Seq<u8>)
    ensures
        !contains_name(without_name(headers, name), name),
        forall|i: int|
            0 <= i < without_name(headers, name).len() ==> headers.contains(
                #[trigger] without_name(headers, name)[i],
            ),
        !contains_name(headers, name) ==> without_name(headers, name) == headers,
    decreases headers.len(),
{
    if headers.len() > 0 {
        let front = headers.drop_last();
        lemma_without_name(front, name);
        let kept = without_name(headers, name);
        assert forall|i: int| 0 <= i < kept.len() implies headers.contains(#[trigger] kept[i]) by {
            if i < without_name(front, name).len() {
                let h = without_name(front, name)[i];
                assert(front.contains(h));
                let j = choose|j: int| 0 <= j < front.len() && front[j] == h;
                assert(headers[j] == h);
            } else {
                assert(kept[i] == headers[headers.len() - 1]);
            }
        }
        if !contains_name(headers, name) {
            assert(!same_name(headers[headers.len() - 1].0, name));
            assert forall|i: int| 0 <= i < front.len() implies !same_name(
                #[trigger] front[i].0,
                name,
            ) by {
                assert(front[i] == headers[i]);
            }
            assert(without_name(headers, name) =~= headers);
        }
    }
}

/// Tells whether a status is in the success class.
pub fn status_is_success(status: u16) -> (success: bool)
    ensures
        success == is_success(status),
{
    200 <= status && status <= 299
}

/// Tells whether the list holds a header of the given name, up to ASCII
/// case.
pub fn has_header(headers: &Vec<Header>, name: &[u8]) -> (found: bool)
    ensures
        found == contains_name(headers_view(headers@), name@),
{
    let mut i: usize = 0;
    while i < headers.len()
        invariant
            i <= headers.len(),
            forall|j: int| 0 <= j < i ==> !same_name(#[trigger] headers_view(headers@)[j].0, name@),
        decreases headers.len() - i,
    {
        if names_match(headers[i].0.as_slice(), name) {
            assert(same_name(headers_view(headers@)[i as int].0, name@));
            return true;
        }
        i = i + 1;
    }
    false
}

/// Copies a header list.
pub fn copy_headers(headers: &Vec<Header>) -> (copy: Vec<Header>)
    ensures
        headers_view(copy@) == headers_view(headers@),
{
    let mut copy: Vec<Header> = Vec::new();
    let mut i: usize = 0;
    while i < headers.len()
        invariant
            i <= headers.len(),
            copy.len() == i,
            forall|j: int| 0 <= j < i ==> headers_view(copy@)[j] == headers_view(headers@)[j],
        decreases headers.len() - i,
    {
        let name = headers[i].0.clone();
        let value = headers[i].1.clone();
        copy.push((name, value));
        i = i + 1;
    }
    assert(headers_view(copy@) =~= headers_view(headers@));
    copy
}

/// Sets a header: drops every header of that name and appends the new one.
pub fn set_header(headers: Vec<Header>, name: Vec<u8>, value: Vec<u8>) -> (updated: Vec<Header>)
    ensures
        headers_view(updated@) == with_header(headers_view(headers@), name@, value@),
{
    let ghost all = headers_view(headers@);
    let mut updated: Vec<Header> = Vec::new();
    let mut rest = headers;
    let mut i: usize = 0;
    let n = rest.len();
    while i < n
        invariant
            i <= n,
            n == rest.len(),
            headers_view(rest@) == all,
            headers_view(updated@) == without_name(all.take(i as int), name@),
        decreases n - i,
    {
        let keep = !names_match(rest[i].0.as_slice(), name.as_slice());
        proof {
            assert(all.take(i + 1).drop_last() =~= all.take(i as int));
            assert(all.take(i + 1).last() == all[i as int]);
        }
        if keep {
            let ghost before = headers_view(updated@);
            let entry_name = rest[i].0.clone();
            let entry_value = rest[i].1.clone();
            updated.push((entry_name, entry_value));
            assert(headers_view(updated@) =~= before.push(all[i as int]));
        }
        i = i + 1;
    }
    proof {
        assert(all.take(n as int) =~= all);
    }
    let ghost kept = headers_view(updated@);
    updated.push((name, value));
    assert(headers_view(updated@) =~= kept.push((name@, value@)));
    updated
}

} // verus!
