//! The contract object whose methods are the entry points.
use vstd::prelude::*;

verus! {

/// The oracle-query contract. It keeps no state of its own.
#[derive(Clone, Copy, Debug, PartialEq, Eq, Structural)]
pub struct Contract {}

impl Default for Contract {
    fn default() -> (r: Contract)
        ensures
            r == (Contract {}),
    {
        Contract {}
    }
}

} // verus!
