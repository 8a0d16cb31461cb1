use vstd::prelude::*;

verus! {

/// The platforms Rainbow 6 Siege can be played on.
#[derive(Copy, Clone, Debug)]
pub enum Platform {
    Pc,
    Xbox,
    Playstation,
}

impl Platform {
    /// The string the api uses for each platform.
    pub open spec fn as_str_spec(self) -> Seq<char> {
        match self {
            Platform::Pc => "pc"@,
            Platform::Xbox => "xbox"@,
            Platform::Playstation => "ps4"@,
        }
    }

    /// Returns the string representation for the api.
    pub fn as_str(self) -> (r: &'static str)
        ensures
            r@ == self.as_str_spec(),
    {
        match self {
            Platform::Pc => "pc",
            Platform::Xbox => "xbox",
            Platform::Playstation => "ps4",
        }
    }
}

} // verus!
