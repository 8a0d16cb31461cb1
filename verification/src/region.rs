use vstd::prelude::*;

verus! {

/// The regions the datacenters are grouped in.
#[derive(Copy, Clone, Debug, PartialEq, Eq, Hash)]
pub enum Region {
    /// US East, US West, US Central, US South Central, Brazil South
    Ncsa,
    /// EU West, EU North
    Emea,
    /// Asia East, Asia SouthEast, Australia East
    Apac,
}

impl Region {
    /// The string the api uses for each region.
    pub open spec fn as_str_spec(self) -> Seq<char> {
        match self {
            Region::Ncsa => "ncsa"@,
            Region::Emea => "emea"@,
            Region::Apac => "apac"@,
        }
    }

    /// Returns the string representation for the api.
    pub fn as_str(self) -> (r: &'static str)
        ensures
            r@ == self.as_str_spec(),
    {
        match self {
            Region::Ncsa => "ncsa",
            Region::Emea => "emea",
            Region::Apac => "apac",
        }
    }
}

} // verus!
