//! HTTP module: the shared transport/governor state behind requests to the
//! r6stats endpoints. The network call itself is made by the application
//! around this library; this module owns everything decided before it —
//! credential normalization, address parsing, the shared ratelimit, and the
//! status check on what comes back.

pub mod error;
pub mod ratelimit;

pub use self::error::Error;
pub use self::ratelimit::{Admission, Decision, Policy, Ratelimit, RatelimitBuilder};

use crate::error::Error as CrateError;
use vstd::prelude::*;
use vstd::rwlock::{RwLock, RwLockPredicate};
use vstd::string::*;

verus! {

/// The HTTP status codes the api answers with.
#[derive(Copy, Clone, Debug)]
#[non_exhaustive]
pub enum Status {
    Success,
    Unauthorized,
    Forbidden,
    NotFound,
}

impl Status {
    /// What [`Status::try_from`] returns for each code.
    pub open spec fn try_from_spec(code: u16) -> Result<Status, u16> {
        if code == 200 {
            Ok(Status::Success)
        } else if code == 401 {
            Ok(Status::Unauthorized)
        } else if code == 403 {
            Ok(Status::Forbidden)
        } else if code == 404 {
            Ok(Status::NotFound)
        } else {
            Err(code)
        }
    }

    /// The [`Status`] for a numeric code, or the code itself where the api
    /// does not document it.
    pub fn try_from(code: u16) -> (r: Result<Status, u16>)
        ensures
            r == Self::try_from_spec(code),
    {
        match code {
            200 => Ok(Status::Success),
            401 => Ok(Status::Unauthorized),
            403 => Ok(Status::Forbidden),
            404 => Ok(Status::NotFound),
            _ => Err(code),
        }
    }
}

/// The common prefix of every api address.
pub open spec fn spec_api_base() -> Seq<char> {
    "https://api2.r6stats.com/public-api"@
}

/// The common prefix of every api address.
pub fn api_base() -> (r: &'static str)
    ensures
        r@ == spec_api_base(),
{
    "https://api2.r6stats.com/public-api"
}

/// The whitespace stripped from the ends of a credential.
pub open spec fn is_space(c: char) -> bool {
    c == ' ' || c == '\t' || c == '\n' || c == '\r'
}

/// A credential with leading whitespace removed.
pub open spec fn spec_trim_start(s: Seq<char>) -> Seq<char>
    decreases s.len(),
{
    if s.len() > 0 && is_space(s[0]) {
        spec_trim_start(s.drop_first())
    } else {
        s
    }
}

/// A credential with trailing whitespace removed.
pub open spec fn spec_trim_end(s: Seq<char>) -> Seq<char>
    decreases s.len(),
{
    if s.len() > 0 && is_space(s.last()) {
        spec_trim_end(s.drop_last())
    } else {
        s
    }
}

/// A credential with an optional leading authentication-scheme prefix
/// removed.
pub open spec fn spec_strip_scheme(s: Seq<char>) -> Seq<char> {
    if s.len() >= 7 && s.subrange(0, 7) == "Bearer "@ {
        s.skip(7)
    } else {
        s
    }
}

/// The normalized form of a credential: surrounding whitespace stripped,
/// then an optional leading `"Bearer "` scheme prefix removed.
pub open spec fn spec_normalize_token(s: Seq<char>) -> Seq<char> {
    spec_strip_scheme(spec_trim_end(spec_trim_start(s)))
}

fn is_space_char(c: char) -> (r: bool)
    ensures
        r == is_space(c),
{
    c == ' ' || c == '\t' || c == '\n' || c == '\r'
}

/// Dropping leading whitespace one character at a time reaches the same
/// suffix in one step.
proof fn lemma_trim_start_skip(s: Seq<char>, i: int)
    requires
        0 <= i <= s.len(),
        forall|j: int| 0 <= j < i ==> is_space(s[j]),
    ensures
        spec_trim_start(s) == spec_trim_start(s.skip(i)),
    decreases i,
{
    if i > 0 {
        assert(s.drop_first() == s.skip(1));
        assert forall|j: int| 0 <= j < i - 1 implies is_space(s.skip(1)[j]) by {
            assert(s.skip(1)[j] == s[j + 1]);
        }
        lemma_trim_start_skip(s.skip(1), i - 1);
        assert(s.skip(1).skip(i - 1) =~= s.skip(i));
    } else {
        assert(s.skip(0) =~= s);
    }
}

/// Dropping trailing whitespace one character at a time reaches the same
/// prefix in one step.
proof fn lemma_trim_end_take(s: Seq<char>, i: int)
    requires
        0 <= i <= s.len(),
        forall|j: int| i <= j < s.len() ==> is_space(s[j]),
    ensures
        spec_trim_end(s) == spec_trim_end(s.take(i)),
    decreases s.len() - i,
{
    if i < s.len() {
        assert(is_space(s.last()));
        assert(s.drop_last() == s.take(s.len() - 1));
        assert forall|j: int| i <= j < s.len() - 1 implies is_space(#[trigger] s.take(
            s.len() - 1,
        )[j]) by {
            assert(s.take(s.len() - 1)[j] == s[j]);
        }
        lemma_trim_end_take(s.take(s.len() - 1), i);
        assert(s.take(s.len() - 1).take(i) =~= s.take(i));
    } else {
        assert(s.take(s.len() as int) =~= s);
    }
}

/// Normalizes an api credential: strips surrounding whitespace and an
/// optional leading `"Bearer "` scheme prefix.
pub fn normalize_token(token: &str) -> (r: String)
    ensures
        r@ == spec_normalize_token(token@),
{
    let n: usize = token.unicode_len();
    let mut a: usize = 0;
    while a < n && is_space_char(token.get_char(a))
        invariant
            a <= n,
            n == token@.len(),
            forall|j: int| 0 <= j < a ==> is_space(token@[j]),
        decreases n - a,
    {
        a = a + 1;
    }
    proof {
        lemma_trim_start_skip(token@, a as int);
        assert(spec_trim_start(token@.skip(a as int)) == token@.skip(a as int));
    }
    let mut b: usize = n;
    while b > a && is_space_char(token.get_char(b - 1))
        invariant
            a <= b <= n,
            n == token@.len(),
            forall|j: int| b <= j < n ==> is_space(token@[j]),
        decreases b,
    {
        b = b - 1;
    }
    let ghost skipped = token@.skip(a as int);
    proof {
        assert forall|j: int| b - a <= j < skipped.len() implies is_space(skipped[j]) by {
            assert(skipped[j] == token@[j + a]);
        }
        lemma_trim_end_take(skipped, b - a);
        assert(skipped.take(b - a) =~= token@.subrange(a as int, b as int));
        if b > a {
            assert(skipped.take(b - a).last() == token@[b - 1]);
        }
        assert(spec_trim_end(skipped.take(b - a)) == skipped.take(b - a));
        assert(spec_trim_end(spec_trim_start(token@)) == token@.subrange(a as int, b as int));
    }
    let trimmed: &str = token.substring_char(a, b);
    let tn: usize = b - a;
    if tn >= 7 {
        let mut k: usize = 0;
        let mut is_scheme: bool = true;
        while k < 7
            invariant
                k <= 7,
                trimmed@.len() >= 7,
                is_scheme <==> (forall|j: int| 0 <= j < k ==> trimmed@[j] == "Bearer "@[j]),
            decreases 7 - k,
        {
            proof {
                reveal_strlit("Bearer ");
            }
            if trimmed.get_char(k) != "Bearer ".get_char(k) {
                is_scheme = false;
            }
            k = k + 1;
        }
        if is_scheme {
            proof {
                reveal_strlit("Bearer ");
                assert(trimmed@.subrange(0, 7) =~= "Bearer "@);
            }
            let rest = trimmed.substring_char(7, tn);
            proof {
                assert(rest@ =~= trimmed@.skip(7));
            }
            return rest.to_owned();
        }
        proof {
            reveal_strlit("Bearer ");
            let j = choose|j: int| 0 <= j < 7 && trimmed@[j] != "Bearer "@[j];
            assert(trimmed@.subrange(0, 7)[j] == trimmed@[j]);
            assert(trimmed@.subrange(0, 7) != "Bearer "@);
        }
        trimmed.to_owned()
    } else {
        trimmed.to_owned()
    }
}

/// What the shared quota was configured with: the lock on the quota state
/// only ever stores well-formed states of this configuration.
pub struct RatelimitPred {
    pub limit: u16,
    pub interval: u64,
    pub policy: Policy,
}

impl RwLockPredicate<Ratelimit> for RatelimitPred {
    open spec fn inv(self, v: Ratelimit) -> bool {
        v.wf() && v.limit == self.limit && v.interval == self.interval && v.policy == self.policy
    }
}

/// The state shared by every sub-client of one [`Client`]: the normalized
/// credential and the account-wide ratelimit, the latter behind a lock so
/// that concurrent admission attempts serialize their mutations.
///
/// [`Client`]: crate::Client
pub struct Http {
    token: String,
    ratelimit: RwLock<Ratelimit, RatelimitPred>,
}

impl Http {
    /// The credential sent with every request, already normalized.
    pub closed spec fn spec_token(&self) -> Seq<char> {
        self.token@
    }

    /// The configuration of the shared quota.
    pub closed spec fn quota(&self) -> RatelimitPred {
        self.ratelimit.pred()
    }

    /// Creates the shared state from a raw credential and a starting quota
    /// state.
    pub fn new(token: &str, ratelimit: Ratelimit) -> (r: Http)
        requires
            ratelimit.wf(),
        ensures
            r.spec_token() == spec_normalize_token(token@),
            r.quota() == (RatelimitPred {
                limit: ratelimit.limit,
                interval: ratelimit.interval,
                policy: ratelimit.policy,
            }),
    {
        let token = normalize_token(token);
        let lock = RwLock::new(
            ratelimit,
            Ghost(
                RatelimitPred {
                    limit: ratelimit.limit,
                    interval: ratelimit.interval,
                    policy: ratelimit.policy,
                },
            ),
        );
        Http { token, ratelimit: lock }
    }

    /// The normalized credential.
    pub fn token(&self) -> (r: &String)
        ensures
            r@ == self.spec_token(),
    {
        &self.token
    }

    /// Returns the current ratelimit: a snapshot of the shared quota state,
    /// read under the lock. The query never rolls the window over.
    pub fn ratelimit(&self) -> (r: Ratelimit)
        ensures
            r.wf(),
            r.limit == self.quota().limit,
            r.interval == self.quota().interval,
            r.policy == self.quota().policy,
    {
        let read_handle = self.ratelimit.acquire_read();
        let r = *read_handle.borrow();
        read_handle.release_read();
        r
    }

    /// One admission attempt against the shared quota at instant `now`. The
    /// quota is read and written under the write lock, so concurrent
    /// attempts from cloned handles serialize here; the lock is released
    /// before this returns, so a caller acting on `Wait` delays nobody else.
    pub fn pre_admit(&self, now: u64) -> (d: Decision)
        requires
            now + self.quota().interval <= u64::MAX,
        ensures
            exists|s: Ratelimit|
                #[trigger] self.quota().inv(s) && d == s.decision_step(now).1,
            self.quota().limit == 0 ==> d is Proceed,
            self.quota().policy is Blocking ==> !(d is Reject),
            self.quota().policy is FailFast ==> !(d is Wait),
            d matches Decision::Wait(w) ==> 1 <= w,
            d matches Decision::Reject(w) ==> 1 <= w,
    {
        let (mut state, write_handle) = self.ratelimit.acquire_write();
        let ghost s0 = state;
        let d = state.pre_admit(now);
        write_handle.release_write(state);
        proof {
            assert(self.quota().inv(s0) && d == s0.decision_step(now).1);
        }
        d
    }
}

/// Whether `url::Url::parse` accepts a string as an absolute address.
pub uninterp spec fn url_parse_ok(s: Seq<char>) -> bool;

/// Relies on `url::Url::parse`: parses an absolute address; whether an input
/// is accepted depends on its characters alone.
#[verifier::external_body]
fn parse_url(s: &str) -> (r: Result<url::Url, url::ParseError>)
    ensures
        r is Ok <==> url_parse_ok(s@),
{
    url::Url::parse(s)
}

/// Parses the target address of a request, mapping a parse failure to the
/// crate error that carries the address and the parse error.
pub fn parse_target(path: &str) -> (r: Result<url::Url, CrateError>)
    ensures
        r is Ok <==> url_parse_ok(path@),
        r matches Err(e) ==> ({
            &&& e matches CrateError::HttpError(he)
            &&& he.url matches Some(u) && u@ == path@
            &&& he.kind is UrlError
        }),
{
    match parse_url(path) {
        Ok(u) => Ok(u),
        Err(e) => Err(error::url_error(path, e)),
    }
}

/// Accepts exactly a success response, mapping any other status to the crate
/// error that carries the address and the code.
pub fn check_status(path: &str, status: u16) -> (r: Result<(), CrateError>)
    ensures
        r is Ok <==> status == 200,
        r matches Err(e) ==> ({
            &&& e matches CrateError::HttpError(he)
            &&& he.url matches Some(u) && u@ == path@
            &&& he.kind matches error::Kind::UnsuccessfulRequest(s) && s == status
        }),
{
    if status == 200 {
        Ok(())
    } else {
        Err(error::unsuccessful_request(path, status))
    }
}

} // verus!
