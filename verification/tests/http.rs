use r6stats_client::http::error::{request_error, unsuccessful_request};
use r6stats_client::http::{check_status, normalize_token, parse_target, Http, Ratelimit, Status};
use r6stats_client::Error;

#[test]
fn test_token_formatting() {
    let expected = "ABC";
    let tokens = ["ABC", "  ABC  ", "Bearer ABC", "  Bearer ABC "];

    for &token in tokens.iter() {
        let http = Http::new(token, Ratelimit::default());
        assert_eq!(http.token().as_str(), expected);
    }
}

#[test]
fn test_token_normalization_edge_cases() {
    assert_eq!(normalize_token(""), "");
    assert_eq!(normalize_token("   "), "");
    // Trimming comes first, so a bare scheme word keeps its name
    assert_eq!(normalize_token("Bearer "), "Bearer");
    assert_eq!(normalize_token("\tBearer XYZ\n"), "XYZ");
    // Only a leading scheme prefix is stripped, and only once
    assert_eq!(normalize_token("Bearer Bearer A"), "Bearer A");
    assert_eq!(normalize_token("bearer ABC"), "bearer ABC");
    assert_eq!(normalize_token("ABC Bearer"), "ABC Bearer");
}

#[test]
fn test_parse_target_accepts_absolute_address() {
    let url = parse_target("https://api2.r6stats.com/public-api/stats/pengu.g2/pc/generic")
        .unwrap();
    assert_eq!(url.host_str(), Some("api2.r6stats.com"));
}

#[test]
fn test_parse_target_rejects_relative_address() {
    let err = parse_target("not a url").unwrap_err();
    match err {
        Error::HttpError(e) => {
            assert_eq!(e.url(), Some("not a url".to_string()));
            assert!(e.url_error().is_some());
            assert_eq!(e.unsuccessful_request(), None);
            assert!(e.request_error().is_none());
        }
        other => panic!("expected an http error, got {:?}", other),
    }
}

#[test]
fn test_check_status_success() {
    assert!(check_status("https://api2.r6stats.com/public-api", 200).is_ok());
}

#[test]
fn test_check_status_failure() {
    let err = check_status("https://api2.r6stats.com/public-api", 404).unwrap_err();
    match err {
        Error::HttpError(e) => {
            assert_eq!(e.unsuccessful_request(), Some(404));
            assert_eq!(e.url(), Some("https://api2.r6stats.com/public-api".to_string()));
            assert!(e.url_error().is_none());
        }
        other => panic!("expected an http error, got {:?}", other),
    }
}

#[test]
fn test_unsuccessful_request_error() {
    let err = unsuccessful_request("https://example.org/x", 401);
    match err {
        Error::HttpError(e) => {
            assert_eq!(e.unsuccessful_request(), Some(401));
            assert_eq!(e.url(), Some("https://example.org/x".to_string()));
        }
        other => panic!("expected an http error, got {:?}", other),
    }
}

#[test]
fn test_request_error() {
    let err = request_error(Some("https://example.org/x".to_string()), "connection reset".to_string());
    match err {
        Error::HttpError(e) => {
            assert_eq!(e.request_error(), Some(&"connection reset".to_string()));
            assert_eq!(e.url(), Some("https://example.org/x".to_string()));
            assert_eq!(e.unsuccessful_request(), None);
        }
        other => panic!("expected an http error, got {:?}", other),
    }
}

#[test]
fn test_json_error_carries_report() {
    let broken = serde_json::from_str::<serde_json::Value>("{");
    let report = broken.unwrap_err().to_string();
    let err = Error::JsonError(report.clone());
    match err {
        Error::JsonError(m) => assert_eq!(m, report),
        other => panic!("expected the json error, got {:?}", other),
    }
}

#[test]
fn test_status_try_from() {
    assert!(matches!(Status::try_from(200), Ok(Status::Success)));
    assert!(matches!(Status::try_from(401), Ok(Status::Unauthorized)));
    assert!(matches!(Status::try_from(403), Ok(Status::Forbidden)));
    assert!(matches!(Status::try_from(404), Ok(Status::NotFound)));
    assert!(matches!(Status::try_from(500), Err(500)));
}
