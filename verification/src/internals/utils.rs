//! Username validation for the stats endpoints.

use crate::error::Error;
use crate::platform::Platform;
use vstd::prelude::*;
use vstd::string::*;

verus! {

/// Whether `char::is_alphanumeric` holds of a character.
pub uninterp spec fn is_alphanumeric_char(c: char) -> bool;

/// Relies on `char::is_alphanumeric`: whether a character is alphabetic or
/// numeric per Unicode, a property of the character alone.
#[verifier::external_body]
fn char_is_alphanumeric(c: char) -> (r: bool)
    ensures
        r == is_alphanumeric_char(c),
{
    c.is_alphanumeric()
}

/// A character acceptable in a username: alphanumeric, or one of the
/// platform's allowed special characters.
pub open spec fn char_allowed(c: char, special: Seq<char>) -> bool {
    is_alphanumeric_char(c) || special.contains(c)
}

/// Every character of the username is acceptable.
pub open spec fn spec_valid_username(username: Seq<char>, special: Seq<char>) -> bool {
    forall|i: int| 0 <= i < username.len() ==> char_allowed(username[i], special)
}

/// The special characters each platform accepts in usernames.
pub open spec fn spec_special_chars(platform: Platform) -> Seq<char> {
    match platform {
        Platform::Pc => ".-_"@,
        Platform::Xbox => " "@,
        Platform::Playstation => "-_"@,
    }
}

/// Whether a username passes [`check_username`] for a platform: it is
/// non-empty and every character is acceptable.
pub open spec fn spec_username_ok(username: Seq<char>, platform: Platform) -> bool {
    username.len() > 0 && spec_valid_username(username, spec_special_chars(platform))
}

fn contains_char(s: &str, c: char) -> (r: bool)
    ensures
        r == s@.contains(c),
{
    let n: usize = s.unicode_len();
    let mut i: usize = 0;
    while i < n
        invariant
            i <= n,
            n == s@.len(),
            forall|j: int| 0 <= j < i ==> s@[j] != c,
        decreases n - i,
    {
        if s.get_char(i) == c {
            proof {
                assert(s@.contains(c)) by {
                    assert(s@[i as int] == c);
                }
            }
            return true;
        }
        i = i + 1;
    }
    proof {
        if s@.contains(c) {
            let j = choose|j: int| 0 <= j < s@.len() && s@[j] == c;
            assert(false);
        }
    }
    false
}

fn valid_username(username: &str, special_chars: &str) -> (r: bool)
    ensures
        r == spec_valid_username(username@, special_chars@),
{
    let n: usize = username.unicode_len();
    let mut i: usize = 0;
    while i < n
        invariant
            i <= n,
            n == username@.len(),
            forall|j: int| 0 <= j < i ==> char_allowed(username@[j], special_chars@),
        decreases n - i,
    {
        let c = username.get_char(i);
        let ok = char_is_alphanumeric(c) || contains_char(special_chars, c);
        if !ok {
            proof {
                assert(!char_allowed(username@[i as int], special_chars@));
            }
            return false;
        }
        i = i + 1;
    }
    true
}

fn _check_username(username: &str, special_chars: &str) -> (r: Result<(), Error>)
    ensures
        r is Ok <==> spec_valid_username(username@, special_chars@),
        r matches Err(e) ==> e is UsernameMalformed,
{
    if valid_username(username, special_chars) {
        Ok(())
    } else {
        Err(Error::UsernameMalformed)
    }
}

fn check_username_pc(username: &str) -> (r: Result<(), Error>)
    ensures
        r is Ok <==> spec_valid_username(username@, ".-_"@),
        r matches Err(e) ==> e is UsernameMalformed,
{
    _check_username(username, ".-_")
}

fn check_username_xbox(username: &str) -> (r: Result<(), Error>)
    ensures
        r is Ok <==> spec_valid_username(username@, " "@),
        r matches Err(e) ==> e is UsernameMalformed,
{
    _check_username(username, " ")
}

fn check_username_playstation(username: &str) -> (r: Result<(), Error>)
    ensures
        r is Ok <==> spec_valid_username(username@, "-_"@),
        r matches Err(e) ==> e is UsernameMalformed,
{
    _check_username(username, "-_")
}

/// Checks a username for a platform: accepted exactly when it is non-empty
/// and every character is alphanumeric or one of the platform's allowed
/// special characters.
pub fn check_username(username: &str, platform: Platform) -> (r: Result<(), Error>)
    ensures
        r is Ok <==> spec_username_ok(username@, platform),
        r matches Err(e) ==> e is UsernameMalformed,
{
    if username.is_empty() {
        return Err(Error::UsernameMalformed);
    }
    match platform {
        Platform::Pc => check_username_pc(username),
        Platform::Xbox => check_username_xbox(username),
        Platform::Playstation => check_username_playstation(username),
    }
}

} // verus!
