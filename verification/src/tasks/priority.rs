use vstd::prelude::*;

verus! {

/// Task priority. The remote service stores it as an ordinal from 1
/// (no priority) to 4 (highest).
#[derive(Clone, Copy, Debug, PartialEq, Eq, Structural)]
pub enum Priority {
    Unset,
    Low,
    Medium,
    High,
}

/// The ordinal the remote service uses for a priority.
pub open spec fn spec_to_integer(p: Priority) -> u8 {
    match p {
        Priority::Unset => 1,
        Priority::Low => 2,
        Priority::Medium => 3,
        Priority::High => 4,
    }
}

/// The priority a given ordinal stands for, if it is one.
pub open spec fn spec_from_integer(i: Option<u8>) -> Option<Priority> {
    match i {
        Some(1u8) => Some(Priority::Unset),
        Some(2u8) => Some(Priority::Low),
        Some(3u8) => Some(Priority::Medium),
        Some(4u8) => Some(Priority::High),
        _ => None,
    }
}

/// Turn an ordinal from the command line into a priority; anything
/// outside 1 to 4 (or no ordinal at all) yields `None`.
pub fn from_integer(value: &Option<u8>) -> (r: Option<Priority>)
    ensures
        r == spec_from_integer(*value),
{
    match value {
        Some(1u8) => Some(Priority::Unset),
        Some(2u8) => Some(Priority::Low),
        Some(3u8) => Some(Priority::Medium),
        Some(4u8) => Some(Priority::High),
        _ => None,
    }
}

impl Priority {
    /// The ordinal sent to the remote service for this priority.
    pub fn to_integer(&self) -> (r: u8)
        ensures
            r == spec_to_integer(*self),
    {
        match self {
            Priority::Unset => 1,
            Priority::Low => 2,
            Priority::Medium => 3,
            Priority::High => 4,
        }
    }
}

} // verus!
