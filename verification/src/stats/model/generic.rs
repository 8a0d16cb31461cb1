//! Module for generic stats.

use vstd::prelude::*;

verus! {

/// The queue mode.
#[derive(Copy, Clone, Debug, PartialEq, Eq, Hash)]
#[non_exhaustive]
pub enum QueueMode {
    /// Casual Queue
    Casual,
    /// Ranked Queue
    Ranked,
    /// Unranked Queue and other
    Other,
}

impl QueueMode {
    /// The display name of each queue mode.
    pub open spec fn name_spec(self) -> Seq<char> {
        match self {
            QueueMode::Casual => "Casual"@,
            QueueMode::Ranked => "Ranked"@,
            QueueMode::Other => "Other"@,
        }
    }

    /// Returns the display name of the queue mode.
    pub fn name(self) -> (r: &'static str)
        ensures
            r@ == self.name_spec(),
    {
        match self {
            QueueMode::Casual => "Casual",
            QueueMode::Ranked => "Ranked",
            QueueMode::Other => "Other",
        }
    }
}

} // verus!
