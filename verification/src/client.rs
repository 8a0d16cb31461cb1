//! Module containing the client.

use crate::error::Error;
use crate::http::ratelimit::Policy;
use crate::http::{spec_normalize_token, Http, Ratelimit, RatelimitBuilder, RatelimitPred};
use crate::leaderboard::Client as LeaderboardClient;
use crate::stats::Client as StatsClient;
use std::sync::Arc;
use vstd::prelude::*;

verus! {

/// Client for the r6stats API.
///
/// Use this client to send authenticated requests to the r6stats api.
///
/// # Ratelimiting
///
/// The API is (normally) ratelimited to 60 requests per minute. To prevent
/// HTTP 429 errors, ratelimits are enforced prior to sending requests by
/// [`Ratelimit`]. The quota is account-wide: every sub-client, and every
/// clone of this client, draws from the same shared state.
#[derive(Clone)]
pub struct Client {
    http: Arc<Http>,
    stats: StatsClient,
    leaderboard: LeaderboardClient,
}

impl Client {
    /// The state shared by this client and both its sub-clients.
    pub closed spec fn spec_http(&self) -> Http {
        *self.http
    }

    /// Both sub-clients resolve to the same underlying shared state.
    pub closed spec fn wf(&self) -> bool {
        self.stats.spec_http() == self.spec_http() && self.leaderboard.spec_http()
            == self.spec_http()
    }

    fn _new(token: &str, ratelimit: Ratelimit) -> (r: Self)
        requires
            ratelimit.wf(),
        ensures
            r.wf(),
            r.spec_http().spec_token() == spec_normalize_token(token@),
            r.spec_http().quota() == (RatelimitPred {
                limit: ratelimit.limit,
                interval: ratelimit.interval,
                policy: ratelimit.policy,
            }),
    {
        let http = Arc::new(Http::new(token, ratelimit));
        let stats = StatsClient::new(http.clone());
        let leaderboard = LeaderboardClient::new(http.clone());
        Client { stats, leaderboard, http }
    }

    /// Creates a new client with default ratelimiting.
    ///
    /// # Args
    ///
    /// - `token` - The API key for authentication with the endpoint
    pub fn new(token: &str) -> (r: Result<Self, Error>)
        ensures
            ({
                &&& r matches Ok(c)
                &&& c.wf()
                &&& c.spec_http().spec_token() == spec_normalize_token(token@)
                &&& c.spec_http().quota() == (RatelimitPred {
                    limit: 60,
                    interval: 60_000,
                    policy: Policy::Blocking,
                })
            }),
    {
        Ok(Self::_new(token, Ratelimit::default()))
    }

    /// Creates a new client with custom ratelimit settings.
    ///
    /// # Args
    ///
    /// - `token` - The API key for authentication with the endpoint
    /// - `op` - Closure for building the [`Ratelimit`]
    pub fn with_ratelimit<F: FnOnce(RatelimitBuilder) -> RatelimitBuilder>(
        token: &str,
        op: F,
    ) -> (r: Result<Self, Error>)
        requires
            call_requires(op, (RatelimitBuilder { limit: None, interval: None, policy: None },)),
        ensures
            ({
                &&& r matches Ok(c)
                &&& c.wf()
                &&& c.spec_http().spec_token() == spec_normalize_token(token@)
                &&& exists|b: RatelimitBuilder|
                    {
                        &&& #[trigger] call_ensures(
                            op,
                            (RatelimitBuilder { limit: None, interval: None, policy: None },),
                            b,
                        )
                        &&& c.spec_http().quota() == (RatelimitPred {
                            limit: b.build_spec().limit,
                            interval: b.build_spec().interval,
                            policy: b.build_spec().policy,
                        })
                    }
            }),
    {
        let builder = op(RatelimitBuilder::new());
        let ratelimit = builder.build();
        Ok(Self::_new(token, ratelimit))
    }

    /// Returns the client for requests to the stats endpoint.
    pub fn stats(&self) -> (r: &StatsClient)
        ensures
            self.wf() ==> r.spec_http() == self.spec_http(),
    {
        &self.stats
    }

    /// Returns the client for requests to the leaderboard endpoint.
    pub fn leaderboard(&self) -> (r: &LeaderboardClient)
        ensures
            self.wf() ==> r.spec_http() == self.spec_http(),
    {
        &self.leaderboard
    }

    /// Returns the current ratelimit: a snapshot of the shared quota state.
    pub fn ratelimit(&self) -> (r: Ratelimit)
        ensures
            r.wf(),
            r.limit == self.spec_http().quota().limit,
            r.interval == self.spec_http().quota().interval,
            r.policy == self.spec_http().quota().policy,
    {
        self.http.ratelimit()
    }

    /// The shared state, through which admitted requests are performed.
    pub fn http(&self) -> (r: &Arc<Http>)
        ensures
            **r == self.spec_http(),
    {
        &self.http
    }
}

} // verus!
