use r6stats_client::http::{Decision, Policy};
use r6stats_client::stats::Kind;
use r6stats_client::{Client, Platform, Region};

#[test]
fn test_client_default_construction() {
    let client = Client::new("  Bearer ABCDEF  ").unwrap();
    let r = client.ratelimit();
    assert_eq!(r.limit(), 60);
    assert_eq!(r.remaining(), 60);
    assert_eq!(r.interval(), 60_000);
    assert_eq!(client.http().token().as_str(), "ABCDEF");
}

#[test]
fn test_client_with_ratelimit() {
    let client = Client::with_ratelimit("tok", |b| b.limit(3).interval(3_000)).unwrap();
    let r = client.ratelimit();
    assert_eq!(r.limit(), 3);
    assert_eq!(r.interval(), 3_000);
    assert!(matches!(r.policy, Policy::Blocking));
}

#[test]
fn test_cloned_handles_share_quota() {
    // Two admissions drawn through different cloned handles, then a third:
    // all three resolve to one shared quota, so the third must wait.
    let client = Client::with_ratelimit("tok", |b| b.limit(2).interval(1_000)).unwrap();
    let clone = client.clone();

    assert_eq!(client.http().pre_admit(0), Decision::Proceed);
    assert_eq!(clone.http().pre_admit(0), Decision::Proceed);
    assert!(matches!(client.http().pre_admit(0), Decision::Wait(_)));
    assert!(matches!(clone.http().pre_admit(0), Decision::Wait(_)));

    assert_eq!(client.ratelimit().remaining(), 0);
    assert_eq!(clone.ratelimit().remaining(), 0);
}

#[test]
fn test_sub_clients_share_quota() {
    let client = Client::with_ratelimit("tok", |b| b.limit(1).interval(1_000)).unwrap();

    // The stats and leaderboard sub-clients draw from the same quota
    assert_eq!(client.stats().http().pre_admit(0), Decision::Proceed);
    assert!(matches!(
        client.leaderboard().http().pre_admit(500),
        Decision::Wait(500)
    ));
}

#[test]
fn test_stats_request_path() {
    let client = Client::new("tok").unwrap();
    let path = client
        .stats()
        .request_path("pengu.g2", Platform::Pc, Kind::Seasonal)
        .unwrap();
    assert_eq!(path, "https://api2.r6stats.com/public-api/stats/pengu.g2/pc/seasonal");

    assert!(client
        .stats()
        .request_path("pengu g2", Platform::Pc, Kind::Seasonal)
        .is_err());
}

#[test]
fn test_leaderboard_request_path() {
    let client = Client::new("tok").unwrap();
    let path = client.leaderboard().request_path(Platform::Xbox, Some(Region::Emea));
    assert_eq!(path, "https://api2.r6stats.com/public-api/leaderboard/xbox/emea");
}
