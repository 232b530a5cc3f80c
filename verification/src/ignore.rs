//! A query modifier that discards the data an endpoint returns.

use vstd::prelude::*;
use vstd::string::*;

use crate::client::{is_success, spec_is_success, Client, Response};
use crate::endpoint::{prepare_request, Endpoint};
use crate::error::{spec_classify, ApiError};
use crate::json::{json_parsed, parse_json};
use crate::query::Query;

verus! {

/// A query that ignores the data returned from an endpoint; only success
/// or failure remains. Used for writes whose response body carries nothing
/// the caller wants.
#[derive(Debug, Clone, Copy, PartialEq, Eq)]
pub struct Ignore<E> {
    endpoint: E,
}

impl<E> Ignore<E> {
    /// The wrapped endpoint.
    pub closed spec fn endpoint_spec(&self) -> E {
        self.endpoint
    }
}

/// Ignore the resulting data from an endpoint.
pub fn ignore<E>(endpoint: E) -> (r: Ignore<E>)
    ensures
        r.endpoint_spec() == endpoint,
{
    Ignore { endpoint }
}

/// The per-response decision of the ignoring executor. Any success status
/// is success, the body never inspected. A failure status with an
/// unparsable body is a service error carrying status and raw bytes; a
/// failure status with a parsable body is classified.
pub fn finish_ignore<E2>(response: Response) -> (r: Result<(), ApiError<E2>>)
    ensures
        spec_is_success(response.status) ==> r == Ok::<(), ApiError<E2>>(()),
        !spec_is_success(response.status) ==> match json_parsed(response.body@) {
            None => r matches Err(e) && e == (ApiError::<E2>::TeamdeckService {
                status: response.status,
                data: response.body,
            }),
            Some(doc) => r == Err::<(), ApiError<E2>>(spec_classify::<E2>(doc)),
        },
{
    if is_success(response.status) {
        return Ok(());
    }
    match parse_json(&response.body) {
        Some(doc) => Err(ApiError::from_teamdeck(doc)),
        None => Err(ApiError::server_error(response.status, response.body)),
    }
}

impl<E, C> Query<(), C> for Ignore<E> where E: Endpoint, C: Client {
    /// The same request and error-classification steps as a plain query,
    /// except that a success response's body is never inspected: success
    /// is reported with no typed value, even when the body is not JSON.
    /// The request sent is the one [`prepare_request`] pins down; what is
    /// made of the response is exactly what [`finish_ignore`] states.
    fn query(&self, client: &C) -> Result<(), ApiError<C::Error>> {
        let path = self.endpoint.url();
        let base = match client.rest_endpoint(path.as_str()) {
            Ok(u) => u,
            Err(e) => {
                return Err(e);
            },
        };
        let (request, body) = match prepare_request::<E, C::Error>(&self.endpoint, base) {
            Ok(p) => p,
            Err(e) => {
                return Err(e);
            },
        };
        let response = match client.rest(&request, &body) {
            Ok(resp) => resp,
            Err(e) => {
                return Err(e);
            },
        };
        finish_ignore::<C::Error>(response)
    }
}

} // verus!
