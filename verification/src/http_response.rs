//! Plain model of the HTTP outcome of a command.
//!
//! The command processor caches the full outcome of a publish command —
//! status code, header set and body — inside the idempotency record,
//! and replays it to duplicate submissions. The transport layer turns this
//! model into a real response; the library only builds, stores and compares
//! it.

use vstd::prelude::*;

verus! {

/// `303 See Other`: the status of the redirect produced by a publish.
pub const STATUS_SEE_OTHER: u16 = 303;

/// `400 Bad Request`: the status of a validation rejection.
pub const STATUS_BAD_REQUEST: u16 = 400;

/// `500 Internal Server Error`: the status of a transaction failure.
pub const STATUS_INTERNAL_SERVER_ERROR: u16 = 500;

/// One response header.
#[derive(Debug)]
pub struct HeaderPair {
    pub name: String,
    pub value: String,
}

/// Mathematical value of a header.
#[verifier::ext_equal]
pub struct HeaderPairView {
    pub name: Seq<char>,
    pub value: Seq<char>,
}

impl View for HeaderPair {
    type V = HeaderPairView;

    open spec fn view(&self) -> HeaderPairView {
        HeaderPairView { name: self.name@, value: self.value@ }
    }
}

impl HeaderPair {
    pub fn new(name: String, value: String) -> (r: HeaderPair)
        ensures
            r@ == (HeaderPairView { name: name@, value: value@ }),
    {
        HeaderPair { name, value }
    }

    /// A fresh pair with the same content.
    pub fn duplicate(&self) -> (r: HeaderPair)
        ensures
            r@ == self@,
    {
        HeaderPair { name: self.name.clone(), value: self.value.clone() }
    }

    /// Content equality.
    pub fn same_as(&self, other: &HeaderPair) -> (r: bool)
        ensures
            r == (self@ =~= other@),
    {
        self.name == other.name && self.value == other.value
    }
}

/// The outcome of a command: what the idempotency store caches and replays.
#[derive(Debug)]
pub struct HttpResponse {
    pub status: u16,
    pub headers: Vec<HeaderPair>,
    pub body: String,
}

/// Mathematical value of a response.
#[verifier::ext_equal]
pub struct HttpResponseView {
    pub status: u16,
    pub headers: Seq<HeaderPairView>,
    pub body: Seq<char>,
}

impl View for HttpResponse {
    type V = HttpResponseView;

    open spec fn view(&self) -> HttpResponseView {
        HttpResponseView {
            status: self.status,
            headers: self.headers@.map_values(|h: HeaderPair| h@),
            body: self.body@,
        }
    }
}

/// The value of a redirect to `loc` carrying one flash message.
pub open spec fn redirect_view(loc: Seq<char>, flash_name: Seq<char>, flash_text: Seq<char>) -> HttpResponseView {
    HttpResponseView {
        status: STATUS_SEE_OTHER,
        headers: seq![
            HeaderPairView { name: "location"@, value: loc },
            HeaderPairView { name: flash_name, value: flash_text },
        ],
        body: Seq::empty(),
    }
}

/// The value of a plain-text response.
pub open spec fn text_view(status: u16, body: Seq<char>) -> HttpResponseView {
    HttpResponseView { status, headers: Seq::empty(), body }
}

impl HttpResponse {
    /// A `303 See Other` redirect carrying one flash message header.
    pub fn redirect_with_flash(location: &str, flash_name: &str, flash_text: &str) -> (r: HttpResponse)
        ensures
            r@ =~= redirect_view(location@, flash_name@, flash_text@),
    {
        let mut headers: Vec<HeaderPair> = Vec::new();
        headers.push(HeaderPair::new(String::from_str("location"), String::from_str(location)));
        headers.push(HeaderPair::new(String::from_str(flash_name), String::from_str(flash_text)));
        proof {
            assert(headers@.map_values(|h: HeaderPair| h@) =~= redirect_view(
                location@,
                flash_name@,
                flash_text@,
            ).headers);
        }
        HttpResponse { status: STATUS_SEE_OTHER, headers, body: String::new() }
    }

    /// A headerless plain-text response.
    pub fn text(status: u16, body: &str) -> (r: HttpResponse)
        ensures
            r@ =~= text_view(status, body@),
    {
        let r = HttpResponse { status, headers: Vec::new(), body: String::from_str(body) };
        proof {
            assert(r@.headers =~= Seq::<HeaderPairView>::empty());
        }
        r
    }

    /// A fresh response with the same content.
    pub fn duplicate(&self) -> (r: HttpResponse)
        ensures
            r@ =~= self@,
    {
        let mut headers: Vec<HeaderPair> = Vec::new();
        let n = self.headers.len();
        let mut i: usize = 0;
        while i < n
            invariant
                i <= n,
                n == self.headers.len(),
                headers@.len() == i as int,
                forall|j: int| 0 <= j < i ==> headers@[j]@ =~= self.headers@[j]@,
            decreases n - i,
        {
            headers.push(self.headers[i].duplicate());
            i = i + 1;
        }
        let r = HttpResponse { status: self.status, headers, body: self.body.clone() };
        proof {
            assert(r@.headers =~= self@.headers);
        }
        r
    }

    /// Content equality: whether two responses are identical.
    pub fn same_as(&self, other: &HttpResponse) -> (r: bool)
        ensures
            r == (self@ =~= other@),
    {
        if self.status != other.status {
            return false;
        }
        if self.headers.len() != other.headers.len() {
            proof {
                assert(self@.headers.len() != other@.headers.len());
            }
            return false;
        }
        let n = self.headers.len();
        let mut i: usize = 0;
        while i < n
            invariant
                i <= n,
                n == self.headers.len(),
                n == other.headers.len(),
                forall|j: int| 0 <= j < i ==> self.headers@[j]@ =~= other.headers@[j]@,
            decreases n - i,
        {
            if !self.headers[i].same_as(&other.headers[i]) {
                proof {
                    assert(self@.headers[i as int] != other@.headers[i as int]);
                }
                return false;
            }
            i = i + 1;
        }
        if self.body != other.body {
            return false;
        }
        proof {
            assert(self@.headers =~= other@.headers);
        }
        true
    }
}

} // verus!
