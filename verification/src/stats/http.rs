//! Route building for the stats endpoint.

use crate::error::Error;
use crate::http::{api_base, spec_api_base};
use crate::internals::utils::{check_username, spec_username_ok};
use crate::platform::Platform;
use crate::stats::Kind;
use vstd::prelude::*;
use vstd::string::*;

verus! {

/// The absolute address of the stats endpoint for the given parts.
pub open spec fn spec_stats_path(username: Seq<char>, platform: Platform, kind: Kind) -> Seq<
    char,
> {
    spec_api_base() + "/stats/"@ + username + "/"@ + platform.as_str_spec() + "/"@
        + kind.as_str_spec()
}

/// Builds a validated stats route out of its three parts.
#[derive(Clone, Debug)]
pub struct RouteBuilder {
    pub username: Option<String>,
    pub platform: Option<Platform>,
    pub kind: Option<Kind>,
}

impl RouteBuilder {
    /// Returns a new builder with nothing set.
    pub fn new() -> (r: Self)
        ensures
            r.username is None,
            r.platform is None,
            r.kind is None,
    {
        RouteBuilder { username: None, platform: None, kind: None }
    }

    /// Sets the username of the route.
    pub fn username(self, username: &str) -> (r: Self)
        ensures
            r.username matches Some(u) && u@ == username@,
            r.platform == self.platform,
            r.kind == self.kind,
    {
        RouteBuilder { username: Some(username.to_owned()), ..self }
    }

    /// Sets the platform of the route.
    pub fn platform(self, platform: Platform) -> (r: Self)
        ensures
            r.platform == Some(platform),
            r.username == self.username,
            r.kind == self.kind,
    {
        RouteBuilder { platform: Some(platform), ..self }
    }

    /// Sets the kind of stats the route requests.
    pub fn kind(self, kind: Kind) -> (r: Self)
        ensures
            r.kind == Some(kind),
            r.username == self.username,
            r.platform == self.platform,
    {
        RouteBuilder { kind: Some(kind), ..self }
    }

    /// Returns the finished route; every part must have been set. The route
    /// is returned exactly when the username is valid for the platform.
    pub fn build(self) -> (r: Result<RouteInfo, Error>)
        requires
            self.username is Some,
            self.platform is Some,
            self.kind is Some,
        ensures
            r is Ok <==> spec_username_ok(self.username->Some_0@, self.platform->Some_0),
            r matches Ok(info) ==> info == (RouteInfo {
                username: self.username->Some_0,
                platform: self.platform->Some_0,
                kind: self.kind->Some_0,
            }),
            r matches Err(e) ==> e is UsernameMalformed,
    {
        if let (Some(username), Some(platform), Some(kind)) = (self.username, self.platform, self.kind) {
            match check_username(username.as_str(), platform) {
                Ok(_) => Ok(RouteInfo { username, platform, kind }),
                Err(e) => Err(e),
            }
        } else {
            proof {
                assert(false);
            }
            Err(Error::UsernameMalformed)
        }
    }
}

/// A validated route to the stats endpoint.
#[derive(Clone, Debug)]
pub struct RouteInfo {
    pub username: String,
    pub platform: Platform,
    pub kind: Kind,
}

impl RouteInfo {
    /// The absolute address this route requests.
    pub open spec fn path_spec(self) -> Seq<char> {
        spec_stats_path(self.username@, self.platform, self.kind)
    }

    /// Returns the absolute address this route requests.
    pub fn path(&self) -> (r: String)
        ensures
            r@ == self.path_spec(),
    {
        let mut s = api_base().to_owned();
        s.append("/stats/");
        s.append(self.username.as_str());
        s.append("/");
        s.append(self.platform.as_str());
        s.append("/");
        s.append(self.kind.as_str());
        s
    }
}

} // verus!
