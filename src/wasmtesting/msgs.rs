//! Messages that the oracle-query contract accepts.
use vstd::prelude::*;

verus! {

/// Instantiation carries no parameters.
#[derive(Clone, Copy, Debug, PartialEq, Eq, Structural)]
pub struct InstantiateMsg {}

/// Direct calls; the one there is does nothing.
#[derive(Clone, Copy, Debug, PartialEq, Eq, Structural)]
pub enum ExecuteMsg {
    Foo {},
}

/// Read-only requests.
#[derive(Clone, Copy, Debug, PartialEq, Eq, Structural)]
pub enum QueryMsg {
    /// Every currency pair that the oracle module tracks.
    GetAllCurrencyPairs {},
}

} // verus!
