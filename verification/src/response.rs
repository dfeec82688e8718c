//! The HTTP-shaped response that the idempotency store replays.
//!
//! A stored response is a status code, an ordered list of name/value header
//! pairs (order-preserving, duplicates allowed), and a body of bytes. The web
//! layer replays it verbatim on a duplicate submission, so nothing here
//! deduplicates or reorders headers.

use vstd::prelude::*;

verus! {

/// One response header: a name/value pair.
#[derive(Debug)]
pub struct Header {
    pub name: String,
    pub value: String,
}

/// What a [`Header`] holds, for contracts.
#[verifier::ext_equal]
pub struct HeaderModel {
    pub name: Seq<char>,
    pub value: Seq<char>,
}

impl View for Header {
    type V = HeaderModel;

    open spec fn view(&self) -> HeaderModel {
        HeaderModel { name: self.name@, value: self.value@ }
    }
}

impl Header {
    /// An owned copy of this header.
    pub fn duplicate(&self) -> (r: Header)
        ensures
            r@ == self@,
    {
        Header { name: self.name.clone(), value: self.value.clone() }
    }
}

/// A response as the store persists and replays it.
#[derive(Debug)]
pub struct StoredResponse {
    pub status: u16,
    pub headers: Vec<Header>,
    pub body: Vec<u8>,
}

/// What a [`StoredResponse`] holds, for contracts.
#[verifier::ext_equal]
pub struct ResponseModel {
    pub status: int,
    pub headers: Seq<HeaderModel>,
    pub body: Seq<u8>,
}

impl View for StoredResponse {
    type V = ResponseModel;

    open spec fn view(&self) -> ResponseModel {
        ResponseModel {
            status: self.status as int,
            headers: self.headers@.map_values(|h: Header| h@),
            body: self.body@,
        }
    }
}

/// A redirect response: status 303 with a single `Location` header.
pub open spec fn redirect_model(location: Seq<char>, body: Seq<u8>) -> ResponseModel {
    ResponseModel {
        status: 303,
        headers: seq![HeaderModel { name: "Location"@, value: location }],
        body: body,
    }
}

impl StoredResponse {
    /// An owned copy of this response, byte for byte.
    pub fn duplicate(&self) -> (r: StoredResponse)
        ensures
            r@ == self@,
    {
        let mut headers: Vec<Header> = Vec::new();
        let mut i: usize = 0;
        while i < self.headers.len()
            invariant
                i <= self.headers.len(),
                headers@.len() == i,
                forall|j: int| 0 <= j < i ==> headers@[j]@ == self.headers@[j]@,
            decreases self.headers.len() - i,
        {
            headers.push(self.headers[i].duplicate());
            i += 1;
        }
        let mut body: Vec<u8> = Vec::new();
        let mut i: usize = 0;
        while i < self.body.len()
            invariant
                i <= self.body.len(),
                body@ =~= self.body@.take(i as int),
            decreases self.body.len() - i,
        {
            body.push(self.body[i]);
            proof {
                assert(self.body@.take(i + 1) =~= self.body@.take(i as int).push(self.body@[i as int]));
            }
            i += 1;
        }
        let r = StoredResponse { status: self.status, headers, body };
        proof {
            assert(self.body@.take(self.body@.len() as int) =~= self.body@);
            assert(r@.headers =~= self@.headers);
            assert(r@ =~= self@);
        }
        r
    }

    /// The redirect the web layer sends after a publish attempt, carrying the
    /// outcome message as its body.
    pub fn redirect(location: &str, body: Vec<u8>) -> (r: StoredResponse)
        ensures
            r@ == redirect_model(location@, body@),
    {
        let mut headers: Vec<Header> = Vec::new();
        headers.push(Header {
            name: String::from_str("Location"),
            value: location.to_owned(),
        });
        let r = StoredResponse { status: 303, headers, body };
        proof {
            assert(r@.headers =~= redirect_model(location@, r.body@).headers);
            assert(r@ =~= redirect_model(location@, r.body@));
        }
        r
    }
}

} // verus!
