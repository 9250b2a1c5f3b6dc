//! Authenticated HTTP requests as plain values, and what comes back.

use vstd::prelude::*;
use vstd::string::*;

use crate::error::ApiError;

verus! {

/// Identifies this client to the service.
pub const USER_AGENT: &'static str = "gh-lib";

/// The HTTP methods that this client issues.
#[derive(Clone, Copy, Debug, PartialEq, Eq, Structural)]
pub enum HttpMethod {
    Get,
    Post,
}

/// One header line: its name and its value.
#[derive(Clone, Debug)]
pub struct Header {
    pub name: String,
    pub value: String,
}

/// A request ready to be sent: method, full URL, headers in order, body.
#[derive(Clone, Debug)]
pub struct HttpRequest {
    pub method: HttpMethod,
    pub url: String,
    pub headers: Vec<Header>,
    pub body: Vec<u8>,
}

/// What a transport hands back for a request that reached the service.
#[derive(Clone, Debug)]
pub struct HttpResponse {
    pub status: u16,
    pub body: Vec<u8>,
}

/// A request that never got an answer (name resolution, connection, TLS,
/// time-out, cancellation), with the transport's description of why.
#[derive(Clone, Debug)]
pub struct TransportError {
    pub message: String,
}

/// The headers of a request as name/value pairs of characters.
pub open spec fn headers_view(hs: Seq<Header>) -> Seq<(Seq<char>, Seq<char>)> {
    hs.map_values(|h: Header| (h.name@, h.value@))
}

/// The headers that every request carries: the bearer credential and the
/// client's name.
pub open spec fn base_headers(token: Seq<char>) -> Seq<(Seq<char>, Seq<char>)> {
    seq![("Authorization"@, "Bearer "@ + token), ("User-Agent"@, USER_AGENT@)]
}

/// Starts a request to `url` with `method`, authorised by `token`; it has no
/// body until one is given.
pub fn request(url: &str, method: HttpMethod, token: &str) -> (r: HttpRequest)
    ensures
        r.url@ == url@,
        r.method == method,
        headers_view(r.headers@) == base_headers(token@),
        r.body@.len() == 0,
{
    let auth = Header {
        name: String::from_str("Authorization"),
        value: String::from_str("Bearer ").concat(token),
    };
    let agent = Header { name: String::from_str("User-Agent"), value: String::from_str(USER_AGENT) };
    let mut headers: Vec<Header> = Vec::new();
    headers.push(auth);
    headers.push(agent);
    proof {
        assert(headers_view(headers@) =~= base_headers(token@));
    }
    HttpRequest { method, url: String::from_str(url), headers, body: Vec::new() }
}

impl HttpRequest {
    /// Adds a header after those already present.
    pub fn header(self, name: &str, value: &str) -> (r: HttpRequest)
        ensures
            r.method == self.method,
            r.url@ == self.url@,
            headers_view(r.headers@) == headers_view(self.headers@).push((name@, value@)),
            r.body@ == self.body@,
    {
        let HttpRequest { method, url, mut headers, body } = self;
        headers.push(Header { name: String::from_str(name), value: String::from_str(value) });
        proof {
            assert(headers_view(headers@) =~= headers_view(self.headers@).push((name@, value@)));
        }
        HttpRequest { method, url, headers, body }
    }

    /// Replaces the body.
    pub fn with_body(self, body: Vec<u8>) -> (r: HttpRequest)
        ensures
            r.method == self.method,
            r.url@ == self.url@,
            r.headers@ == self.headers@,
            r.body@ == body@,
    {
        HttpRequest { method: self.method, url: self.url, headers: self.headers, body }
    }
}

/// The body of an answered request. A request that got no answer is a
/// transport failure; the status of an answer is not judged here.
pub fn received_body(sent: Result<HttpResponse, TransportError>) -> (r: Result<Vec<u8>, ApiError>)
    ensures
        match sent {
            Ok(resp) => r is Ok && r->Ok_0@ == resp.body@,
            Err(t) => r == Err::<Vec<u8>, ApiError>(ApiError::Transport(t.message)),
        },
{
    match sent {
        Ok(resp) => Ok(resp.body),
        Err(t) => Err(ApiError::Transport(t.message)),
    }
}

} // verus!
