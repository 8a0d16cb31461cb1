//! Declarations of the outside crates' types that values of this library
//! carry opaquely.

use vstd::prelude::*;

verus! {

/// The error type of the `url` parser.
#[verifier::external_type_specification]
#[verifier::external_body]
pub struct ExUrlParseError(url::ParseError);

/// A parsed absolute address of the `url` crate.
#[verifier::external_type_specification]
#[verifier::external_body]
pub struct ExUrl(url::Url);

} // verus!
