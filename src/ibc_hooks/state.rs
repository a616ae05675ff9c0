//! The counter's stored state.
use vstd::prelude::*;

verus! {

/// The value kept in storage under the counter's key.
#[derive(Clone, Copy, Debug, PartialEq, Eq, Structural)]
pub struct Count {
    pub val: u64,
}

} // verus!
