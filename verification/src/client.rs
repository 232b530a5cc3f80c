//! The transport capability: a client resolves endpoint paths against its
//! configured base and performs one HTTP round trip.

use vstd::prelude::*;
use vstd::string::*;

use crate::error::ApiError;

verus! {

/// An HTTP method.
#[derive(Debug, Clone, Copy, PartialEq, Eq, Structural)]
pub enum Method {
    Get,
    Post,
    Put,
    Delete,
}

impl Method {
    /// The method's wire name.
    pub open spec fn spec_name(self) -> Seq<char> {
        match self {
            Method::Get => "GET"@,
            Method::Post => "POST"@,
            Method::Put => "PUT"@,
            Method::Delete => "DELETE"@,
        }
    }

    /// The method's wire name.
    pub fn as_str(self) -> (r: &'static str)
        ensures
            r@ == self.spec_name(),
    {
        match self {
            Method::Get => "GET",
            Method::Post => "POST",
            Method::Put => "PUT",
            Method::Delete => "DELETE",
        }
    }
}

/// The views of a header list's names and values.
pub open spec fn spec_header_views(h: Seq<(String, String)>) -> Seq<(Seq<char>, Seq<char>)> {
    h.map_values(|p: (String, String)| (p.0@, p.1@))
}

/// One HTTP request as the executors hand it to a transport: the absolute
/// URL with any query string already attached, and the headers in order.
/// Where a name repeats, every pair is kept and sent in order — the fixed
/// pairs first, an endpoint's own after them, never removing the fixed
/// ones.
#[derive(Debug)]
pub struct Request {
    pub method: Method,
    pub url: String,
    pub headers: Vec<(String, String)>,
}

/// One raw HTTP response as a transport hands it back.
#[derive(Debug)]
pub struct Response {
    pub status: u16,
    pub body: Vec<u8>,
}

/// Whether a status code counts as success.
pub open spec fn spec_is_success(status: u16) -> bool {
    200 <= status < 300
}

/// Whether a status code counts as success.
pub fn is_success(status: u16) -> (r: bool)
    ensures
        r == spec_is_success(status),
{
    200 <= status && status < 300
}

/// A client that can resolve endpoint paths. Implementors perform the
/// resolution against their configured base endpoint; a malformed URL
/// surfaces as a configuration error and is never retried.
pub trait RestClient {
    /// The client's own error type.
    type Error;

    /// Resolve an endpoint path to an absolute URL.
    fn rest_endpoint(&self, endpoint: &str) -> Result<String, ApiError<Self::Error>>;
}

/// A client which can communicate with the service, blocking until the
/// round trip completes. Implementors inject authentication and perform
/// the network call.
pub trait Client: RestClient {
    /// Send a REST query.
    fn rest(&self, request: &Request, body: &Vec<u8>) -> Result<Response, ApiError<Self::Error>>;
}

} // verus!
