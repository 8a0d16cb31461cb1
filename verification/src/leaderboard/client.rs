//! The sub-client for the leaderboard endpoint.

use crate::http::Http;
use crate::leaderboard::http::{spec_leaderboard_path, RouteBuilder};
use crate::platform::Platform;
use crate::region::Region;
use std::sync::Arc;
use vstd::prelude::*;

verus! {

/// Client for the leaderboard endpoint. It draws from the same credential
/// and account-wide ratelimit as every other sub-client of one [`Client`].
///
/// [`Client`]: crate::Client
#[derive(Clone)]
pub struct Client {
    http: Arc<Http>,
}

impl Client {
    /// The shared state this sub-client draws from.
    pub closed spec fn spec_http(&self) -> Http {
        *self.http
    }

    pub(crate) fn new(http: Arc<Http>) -> (r: Self)
        ensures
            r.spec_http() == *http,
    {
        Client { http }
    }

    /// The shared state, through which an admitted request is performed.
    pub fn http(&self) -> (r: &Arc<Http>)
        ensures
            **r == self.spec_http(),
    {
        &self.http
    }

    /// The address for a leaderboard request, optionally filtered to one
    /// region.
    pub fn request_path(&self, platform: Platform, region: Option<Region>) -> (r: String)
        ensures
            r@ == spec_leaderboard_path(platform, region),
    {
        let route = RouteBuilder::new().platform(platform).region(region).build();
        route.path()
    }
}

} // verus!
