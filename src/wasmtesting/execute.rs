//! Instantiation and direct calls: both succeed and change nothing.
use vstd::prelude::*;

use crate::wasmtesting::msgs::{ExecuteMsg, InstantiateMsg};
use crate::wasmtesting::state::Contract;

verus! {

impl Contract {
    /// Accepts any instantiation.
    pub fn instantiate(&self, _msg: InstantiateMsg) -> (r: Result<(), cosmwasm_std::StdError>)
        ensures
            r is Ok,
    {
        Ok(())
    }

    /// Accepts every direct call and changes nothing.
    pub fn execute(&self, msg: ExecuteMsg) -> (r: Result<(), cosmwasm_std::StdError>)
        ensures
            r is Ok,
    {
        match msg {
            ExecuteMsg::Foo {} => Ok(()),
        }
    }
}

} // verus!
