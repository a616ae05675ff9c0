//! The counter's entry points, as transitions from the stored count to the
//! next one. Loading and saving the count is the host's part.
use vstd::prelude::*;

use crate::framework::{decimal_digits, u64_to_json};
use crate::ibc_hooks::msg::{ExecuteMsg, IBCLifecycleComplete, InstantiateMsg, QueryMsg, SudoMsg};
use crate::ibc_hooks::state::Count;

verus! {

/// Why a transition was refused.
#[derive(Clone, Copy, Debug, PartialEq, Eq, Structural)]
pub enum CountError {
    /// `current + amount` does not fit in a `u64`; the count is left as it was.
    Overflow { current: u64, amount: u64 },
}

/// The outcome of adding `amount` to the count: the new count, or an overflow.
pub open spec fn add_to(count: Count, amount: u64) -> Result<Count, CountError> {
    if count.val + amount <= u64::MAX {
        Ok(Count { val: (count.val + amount) as u64 })
    } else {
        Err(CountError::Overflow { current: count.val, amount })
    }
}

/// How much a lifecycle callback adds: the packet's sequence number for a
/// successful acknowledgement or a timeout, one for a failed acknowledgement.
pub open spec fn sudo_amount(msg: SudoMsg) -> u64 {
    match msg {
        SudoMsg::IBCLifecycleComplete(IBCLifecycleComplete::IBCAck { sequence, success, .. }) => {
            if success {
                sequence
            } else {
                1
            }
        },
        SudoMsg::IBCLifecycleComplete(IBCLifecycleComplete::IBCTimeout { sequence, .. }) => {
            sequence
        },
    }
}

fn add_checked(count: Count, amount: u64) -> (r: Result<Count, CountError>)
    ensures
        r == add_to(count, amount),
{
    match count.val.checked_add(amount) {
        Some(val) => Ok(Count { val }),
        None => Err(CountError::Overflow { current: count.val, amount }),
    }
}

/// The count that a new contract starts with: zero.
pub fn instantiate(_msg: InstantiateMsg) -> (r: Count)
    ensures
        r.val == 0,
{
    Count { val: 0 }
}

/// Dispatches a direct call.
pub fn execute(count: Count, msg: ExecuteMsg) -> (r: Result<Count, CountError>)
    ensures
        r == add_to(count, 1),
{
    match msg {
        ExecuteMsg::Increase {} => execute_increase(count),
    }
}

/// Adds one to the count.
pub fn execute_increase(count: Count) -> (r: Result<Count, CountError>)
    ensures
        r == add_to(count, 1),
{
    add_checked(count, 1)
}

/// Answers a query as JSON: the count's value as a bare number.
pub fn query(count: Count, msg: QueryMsg) -> (r: Result<Vec<u8>, cosmwasm_std::StdError>)
    ensures
        r is Ok,
        r->Ok_0@ == decimal_digits(count.val as nat),
{
    match msg {
        QueryMsg::Get {} => u64_to_json(query_get(count)),
    }
}

fn query_get(count: Count) -> (r: u64)
    ensures
        r == count.val,
{
    count.val
}

/// Applies a packet lifecycle callback: a successful acknowledgement or a
/// timeout adds the packet's sequence number, a failed acknowledgement adds one.
pub fn sudo(count: Count, msg: SudoMsg) -> (r: Result<Count, CountError>)
    ensures
        r == add_to(count, sudo_amount(msg)),
{
    match msg {
        SudoMsg::IBCLifecycleComplete(inner_msg) => match inner_msg {
            IBCLifecycleComplete::IBCAck { channel: _, ack: _, sequence, success } => {
                if success {
                    add_checked(count, sequence)
                } else {
                    add_checked(count, 1)
                }
            },
            IBCLifecycleComplete::IBCTimeout { channel: _, sequence } => {
                add_checked(count, sequence)
            },
        },
    }
}

} // verus!
