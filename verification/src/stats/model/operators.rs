//! Module for operator stats.

use vstd::prelude::*;

verus! {

/// Deserialized ability info.
#[derive(Clone, Debug)]
#[non_exhaustive]
pub struct AbilityInfo {
    pub ability: String,
    pub value: Option<u16>,
}

impl AbilityInfo {
    /// Builds the record from its parts.
    pub fn new(ability: String, value: Option<u16>) -> (r: Self)
        ensures
            r.ability == ability,
            r.value == value,
    {
        AbilityInfo { ability, value }
    }
}

} // verus!
