//! The sub-client for the stats endpoint.

use crate::error::Error;
use crate::http::Http;
use crate::platform::Platform;
use crate::stats::http::{spec_stats_path, RouteBuilder};
use crate::stats::Kind;
use std::sync::Arc;
use vstd::prelude::*;

verus! {

/// Client for the stats endpoint. It draws from the same credential and
/// account-wide ratelimit as every other sub-client of one [`Client`].
///
/// [`Client`]: crate::Client
#[derive(Clone)]
pub struct Client {
    http: Arc<Http>,
}

impl Client {
    /// The shared state this sub-client draws from.
    pub closed spec fn spec_http(&self) -> Http {
        *self.http
    }

    pub(crate) fn new(http: Arc<Http>) -> (r: Self)
        ensures
            r.spec_http() == *http,
    {
        Client { http }
    }

    /// The shared state, through which an admitted request is performed.
    pub fn http(&self) -> (r: &Arc<Http>)
        ensures
            **r == self.spec_http(),
    {
        &self.http
    }

    /// The validated address for a stats request: returned exactly when the
    /// username is valid for the platform, else the validation error.
    pub fn request_path(&self, username: &str, platform: Platform, kind: Kind) -> (r: Result<
        String,
        Error,
    >)
        ensures
            r is Ok <==> crate::internals::utils::spec_username_ok(username@, platform),
            r matches Ok(p) ==> p@ == spec_stats_path(username@, platform, kind),
            r matches Err(e) ==> e is UsernameMalformed,
    {
        let route = match RouteBuilder::new().username(username).platform(platform).kind(
            kind,
        ).build() {
            Ok(route) => route,
            Err(e) => {
                return Err(e);
            },
        };
        Ok(route.path())
    }
}

} // verus!
