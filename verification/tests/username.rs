use r6stats_client::internals::utils::check_username;
use r6stats_client::{Error, Platform};

#[test]
fn test_check_username() {
    // PC
    let valid = "pengu.g2";
    let invalids = ["", "pengu.g2/pc/generic", "pengu g2"];

    assert!(check_username(valid, Platform::Pc).is_ok());

    for &invalid in invalids.iter() {
        assert!(check_username(invalid, Platform::Pc).is_err());
    }

    // Xbox
    let valid = "Hello Hello";
    let invalids = ["", "Hello.Hello", "Hello/Hello"];

    assert!(check_username(valid, Platform::Xbox).is_ok());

    for &invalid in invalids.iter() {
        assert!(check_username(invalid, Platform::Xbox).is_err());
    }

    // Playstation
    let valid = "Hello_Hello-Hello";
    let invalids = ["", "Hello.Hello", "Hello Hello", "Hello/Hello"];

    assert!(check_username(valid, Platform::Playstation).is_ok());

    for &invalid in invalids.iter() {
        assert!(check_username(invalid, Platform::Playstation).is_err());
    }
}

#[test]
fn test_check_username_error_kind() {
    match check_username("", Platform::Pc) {
        Err(Error::UsernameMalformed) => {}
        other => panic!("expected the malformed-username error, got {:?}", other),
    }
}

#[test]
fn test_check_username_alphanumeric() {
    // Distinguishes real character classification from any constant answer:
    // plain letters pass on every platform, a slash never does.
    for platform in [Platform::Pc, Platform::Xbox, Platform::Playstation] {
        assert!(check_username("abc123", platform).is_ok());
        assert!(check_username("abc/123", platform).is_err());
    }
    // Unicode letters are alphanumeric too
    assert!(check_username("p\u{00e9}ngu", Platform::Pc).is_ok());
}
