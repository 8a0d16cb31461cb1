//! Route building for the leaderboard endpoint.

use crate::http::{api_base, spec_api_base};
use crate::platform::Platform;
use crate::region::Region;
use vstd::prelude::*;
use vstd::string::*;

verus! {

/// The absolute address of the leaderboard endpoint for the given parts: a
/// missing region filter requests all regions.
pub open spec fn spec_leaderboard_path(platform: Platform, region: Option<Region>) -> Seq<char> {
    spec_api_base() + "/leaderboard/"@ + platform.as_str_spec() + "/"@ + (match region {
        Some(region) => region.as_str_spec(),
        None => "all"@,
    })
}

/// Builds a leaderboard route out of its parts.
#[derive(Copy, Clone, Debug)]
pub struct RouteBuilder {
    pub platform: Option<Platform>,
    pub region: Option<Region>,
}

impl RouteBuilder {
    /// Returns a new builder with nothing set.
    pub fn new() -> (r: Self)
        ensures
            r.platform is None,
            r.region is None,
    {
        RouteBuilder { platform: None, region: None }
    }

    /// Sets the platform of the route.
    pub fn platform(self, platform: Platform) -> (r: Self)
        ensures
            r.platform == Some(platform),
            r.region == self.region,
    {
        RouteBuilder { platform: Some(platform), ..self }
    }

    /// Sets or clears the region filter of the route.
    pub fn region(self, region: Option<Region>) -> (r: Self)
        ensures
            r.region == region,
            r.platform == self.platform,
    {
        RouteBuilder { region, ..self }
    }

    /// Returns the finished route; the platform must have been set.
    pub fn build(self) -> (r: RouteInfo)
        requires
            self.platform is Some,
        ensures
            r == (RouteInfo { platform: self.platform->Some_0, region: self.region }),
    {
        if let Some(platform) = self.platform {
            RouteInfo { platform, region: self.region }
        } else {
            proof {
                assert(false);
            }
            RouteInfo { platform: Platform::Pc, region: self.region }
        }
    }
}

/// A route to the leaderboard endpoint.
#[derive(Copy, Clone, Debug)]
pub struct RouteInfo {
    pub platform: Platform,
    pub region: Option<Region>,
}

impl RouteInfo {
    /// The absolute address this route requests.
    pub open spec fn path_spec(self) -> Seq<char> {
        spec_leaderboard_path(self.platform, self.region)
    }

    /// Returns the absolute address this route requests.
    pub fn path(&self) -> (r: String)
        ensures
            r@ == self.path_spec(),
    {
        let mut s = api_base().to_owned();
        s.append("/leaderboard/");
        s.append(self.platform.as_str());
        s.append("/");
        match self.region {
            Some(region) => s.append(region.as_str()),
            None => s.append("all"),
        }
        s
    }
}

} // verus!
