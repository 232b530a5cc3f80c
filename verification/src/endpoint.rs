//! The request-descriptor capability, the assembly of one HTTP request
//! from it, and the single-item query executor.

use vstd::prelude::*;
use vstd::string::*;

use crate::client::{
    is_success, spec_header_views, spec_is_success, Client, Method, Request, Response,
};
use crate::error::{spec_classify, ApiError, BodyError};
use crate::json::{json_parsed, parse_json, FromJson, JsonValue};
use crate::params::QueryParams;
use crate::query::Query;

verus! {

/// The static description of one HTTP request: a path, a method, and
/// optionally a body, headers and query parameters. Endpoint types
/// override only what they need.
pub trait Endpoint {
    /// The endpoint's path, relative to the client's base endpoint.
    spec fn url_spec(&self) -> Seq<char>;

    /// Produce the path.
    fn url(&self) -> (r: String)
        ensures
            r@ == self.url_spec(),
    ;

    /// The endpoint's HTTP method.
    spec fn method_spec(&self) -> Method;

    /// Produce the method.
    fn method(&self) -> (r: Method)
        ensures
            r == self.method_spec(),
    ;

    /// The body bytes the endpoint sends, if any; most endpoints send none.
    open spec fn body_spec(&self) -> Option<Seq<u8>> {
        None
    }

    /// Produce the body; [`no_body`] serves the endpoints that send none.
    fn body(&self) -> (r: Result<Option<Vec<u8>>, BodyError>)
        ensures
            r matches Ok(b) ==> match b {
                Some(bytes) => self.body_spec() == Some(bytes@),
                None => self.body_spec() is None,
            },
    ;

    /// The endpoint's own headers, beyond the fixed ones; most add none.
    open spec fn headers_spec(&self) -> Seq<(Seq<char>, Seq<char>)> {
        Seq::empty()
    }

    /// Produce the headers; [`no_headers`] serves the endpoints that add
    /// none.
    fn headers(&self) -> (r: Vec<(String, String)>)
        ensures
            spec_header_views(r@) == self.headers_spec(),
    ;

    /// The endpoint's query parameters; most endpoints have none.
    open spec fn parameters_spec(&self) -> Seq<(Seq<char>, Seq<char>)> {
        Seq::empty()
    }

    /// Produce the query parameters.
    fn parameters(&self) -> (r: QueryParams)
        ensures
            r@ == self.parameters_spec(),
    ;
}

/// No body: what an endpoint without one returns.
pub fn no_body() -> (r: Result<Option<Vec<u8>>, BodyError>)
    ensures
        r matches Ok(b) && b is None,
{
    Ok(None)
}

/// No headers of the endpoint's own.
pub fn no_headers() -> (r: Vec<(String, String)>)
    ensures
        spec_header_views(r@) == Seq::<(Seq<char>, Seq<char>)>::empty(),
{
    let r: Vec<(String, String)> = Vec::new();
    proof {
        assert(spec_header_views(r@) =~= Seq::<(Seq<char>, Seq<char>)>::empty());
    }
    r
}

/// The two fixed headers every request carries. An endpoint's own headers
/// follow them, so an endpoint may override but never remove them.
pub open spec fn spec_fixed_headers() -> Seq<(Seq<char>, Seq<char>)> {
    seq![("Accept"@, "application/json"@), ("Content-Type"@, "application/json"@)]
}

/// Assemble the request an endpoint describes, around an already-built URL.
pub fn build_request<E: Endpoint>(endpoint: &E, url: String) -> (r: Request)
    ensures
        r.method == endpoint.method_spec(),
        r.url@ == url@,
        spec_header_views(r.headers@) == spec_fixed_headers() + endpoint.headers_spec(),
{
    let mut headers: Vec<(String, String)> = Vec::new();
    headers.push((String::from_str("Accept"), String::from_str("application/json")));
    headers.push((String::from_str("Content-Type"), String::from_str("application/json")));
    let ghost fixed = headers@;
    let mut extra = endpoint.headers();
    let ghost extra_view = extra@;
    headers.append(&mut extra);
    let r = Request { method: endpoint.method(), url, headers };
    proof {
        assert(r.headers@ == fixed + extra_view);
        assert(spec_header_views(fixed) =~= spec_fixed_headers());
        assert(spec_header_views(r.headers@) =~= spec_header_views(fixed) + spec_header_views(
            extra_view,
        ));
    }
    r
}

/// Check one raw response. An unparsable body is a service error carrying
/// the status and the raw bytes, whatever the status code was — even a
/// success status. A non-success status has its parsed body classified.
/// Only a success status with a parsable body yields the document.
pub fn check_response<E2>(response: Response) -> (r: Result<JsonValue, ApiError<E2>>)
    ensures
        match json_parsed(response.body@) {
            None => r matches Err(e) && e == (ApiError::<E2>::TeamdeckService {
                status: response.status,
                data: response.body,
            }),
            Some(doc) => if spec_is_success(response.status) {
                r == Ok::<JsonValue, ApiError<E2>>(doc)
            } else {
                r == Err::<JsonValue, ApiError<E2>>(spec_classify::<E2>(doc))
            },
        },
{
    let status = response.status;
    match parse_json(&response.body) {
        Some(doc) => {
            if is_success(status) {
                Ok(doc)
            } else {
                Err(ApiError::from_teamdeck(doc))
            }
        },
        None => Err(ApiError::server_error(status, response.body)),
    }
}

/// Around an already-resolved base URL, build exactly the request and body
/// an endpoint describes: the endpoint's method; the base with the
/// endpoint's parameters appended; the fixed headers, then the endpoint's
/// own; the endpoint's body bytes, or empty where it sends none. A body
/// construction failure is the only failure.
pub fn prepare_request<E: Endpoint, E2>(endpoint: &E, base: String) -> (r: Result<
    (Request, Vec<u8>),
    ApiError<E2>,
>)
    ensures
        match r {
            Ok(p) => {
                &&& p.0.method == endpoint.method_spec()
                &&& p.0.url@ == base@ + crate::params::spec_url_query_suffix(
                    endpoint.parameters_spec(),
                )
                &&& spec_header_views(p.0.headers@) == spec_fixed_headers()
                    + endpoint.headers_spec()
                &&& match endpoint.body_spec() {
                    Some(bytes) => p.1@ == bytes,
                    None => p.1@ == Seq::<u8>::empty(),
                }
            },
            Err(e) => e is Body,
        },
{
    let mut url = base;
    let params = endpoint.parameters();
    params.add_to_url(&mut url);
    let request = build_request(endpoint, url);
    let body = match endpoint.body() {
        Ok(Some(b)) => b,
        Ok(None) => Vec::new(),
        Err(e) => {
            return Err(ApiError::Body { source: e });
        },
    };
    Ok((request, body))
}

/// Decode a checked document into the caller's type: a reading of the
/// document, or — exactly when the document has none — a data-type error
/// naming the type and carrying the reader's diagnostic, never a silent
/// default value.
pub fn decode_document<T: FromJson, E2>(doc: &JsonValue) -> (r: Result<T, ApiError<E2>>)
    ensures
        match r {
            Ok(t) => T::decodes(*doc, t),
            Err(e) => {
                &&& !T::decodable(*doc)
                &&& e matches (ApiError::DataType { typename, source: _ }) && typename@
                    == T::type_label_spec()
            },
        },
{
    match T::from_json(doc) {
        Ok(t) => Ok(t),
        Err(d) => Err(ApiError::data_type::<T>(d)),
    }
}

impl<E, T, C> Query<T, C> for E where E: Endpoint, T: FromJson, C: Client {
    /// One request/response cycle: resolve the path against the client's
    /// base, send the request [`prepare_request`] pins down, check the
    /// response with [`check_response`], and decode the document with
    /// [`decode_document`]. Each failure surfaces as the matching error;
    /// nothing is retried or swallowed. What the abstract transport
    /// returned cannot be named here, so the clause below says what holds
    /// of every success whatever came back: it is a reading of a JSON
    /// document that some success-status response parsed to.
    fn query(&self, client: &C) -> (r: Result<T, ApiError<C::Error>>)
        ensures
            r matches Ok(t) ==> exists|status: u16, bytes: Seq<u8>, doc: JsonValue|
                #![trigger spec_is_success(status), json_parsed(bytes), T::decodes(doc, t)]
                {
                    &&& spec_is_success(status)
                    &&& json_parsed(bytes) == Some(doc)
                    &&& T::decodes(doc, t)
                },
    {
        let path = self.url();
        let base = match client.rest_endpoint(path.as_str()) {
            Ok(u) => u,
            Err(e) => {
                return Err(e);
            },
        };
        let (request, body) = match prepare_request::<E, C::Error>(self, base) {
            Ok(p) => p,
            Err(e) => {
                return Err(e);
            },
        };
        let response = match client.rest(&request, &body) {
            Ok(resp) => resp,
            Err(e) => {
                return Err(e);
            },
        };
        let ghost status = response.status;
        let ghost bytes = response.body@;
        let value = match check_response::<C::Error>(response) {
            Ok(v) => v,
            Err(e) => {
                return Err(e);
            },
        };
        match decode_document::<T, C::Error>(&value) {
            Ok(t) => {
                proof {
                    assert(spec_is_success(status) && json_parsed(bytes) == Some(value)
                        && T::decodes(value, t));
                }
                Ok(t)
            },
            Err(e) => Err(e),
        }
    }
}

} // verus!
