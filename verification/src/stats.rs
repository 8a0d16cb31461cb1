//! The stats endpoint: route building, the request kinds, and the typed
//! models the endpoint answers with.

pub mod client;
pub mod http;
pub mod model;

pub use self::client::Client;

use vstd::prelude::*;

verus! {

/// Type of stats to request.
#[derive(Copy, Clone, Debug)]
#[non_exhaustive]
pub enum Kind {
    Generic,
    Seasonal,
    Operators,
    WeaponCategories,
    Weapons,
}

impl Kind {
    /// The string the api uses for each kind of stats.
    pub open spec fn as_str_spec(self) -> Seq<char> {
        match self {
            Kind::Generic => "generic"@,
            Kind::Seasonal => "seasonal"@,
            Kind::Operators => "operators"@,
            Kind::WeaponCategories => "weapon-categories"@,
            Kind::Weapons => "weapons"@,
        }
    }

    /// Returns the string representation for the api.
    pub fn as_str(self) -> (r: &'static str)
        ensures
            r@ == self.as_str_spec(),
    {
        match self {
            Kind::Generic => "generic",
            Kind::Seasonal => "seasonal",
            Kind::Operators => "operators",
            Kind::WeaponCategories => "weapon-categories",
            Kind::Weapons => "weapons",
        }
    }
}

} // verus!
