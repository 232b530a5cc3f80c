//! The query capability: anything that can be run against a client.

use vstd::prelude::*;

use crate::client::Client;
use crate::error::ApiError;

verus! {

/// A query which may be made against a blocking client. The transport is
/// abstract here, so this trait promises nothing; each implementation
/// states at its own site what holds of every outcome, whatever the
/// client returned.
pub trait Query<T, C: Client> {
    /// Perform the query against the client.
    fn query(&self, client: &C) -> Result<T, ApiError<C::Error>>;
}

} // verus!
