//! The hosting regions a stack can live in.

use vstd::prelude::*;

verus! {

/// Region of the content delivery network that serves a stack.
#[derive(Clone, Copy, Debug, PartialEq, Eq, Structural)]
pub enum Region {
    Europe,
    NorthAmerica,
    Australia,
}

impl Default for Region {
    /// Europe is the region used when none is chosen.
    fn default() -> (r: Region)
        ensures
            r == Region::Europe,
    {
        Region::Europe
    }
}

} // verus!
