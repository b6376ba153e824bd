//! Queue identities and resource ownership between queue families.

use vstd::prelude::*;

verus! {

/// Identity of one device queue: its family and its index within the family.
#[derive(Clone, Copy, Debug, PartialEq, Eq, Structural, Hash)]
pub struct QueueId {
    pub family: u32,
    pub index: u32,
}

/// Which queue family owns a resource, if any.
#[derive(Clone, Copy, Debug, PartialEq, Eq, Structural, Hash)]
pub enum Ownership {
    /// Not yet owned by any family.
    NotOwned,
    /// Owned by one family.
    Owned { family: u32 },
    /// Mid-transfer from one family to another.
    Transition { from: u32, to: u32 },
}

} // verus!
