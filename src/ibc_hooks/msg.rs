//! Messages that the counter contract accepts.
use vstd::prelude::*;

verus! {

/// Instantiation carries no parameters.
#[derive(Clone, Copy, Debug, PartialEq, Eq, Structural)]
pub struct InstantiateMsg {}

/// Direct calls to the counter.
#[derive(Clone, Copy, Debug, PartialEq, Eq, Structural)]
pub enum ExecuteMsg {
    /// Add one to the counter.
    Increase {},
}

/// Read-only requests.
#[derive(Clone, Copy, Debug, PartialEq, Eq, Structural)]
pub enum QueryMsg {
    /// The counter's current value, answered as a JSON number.
    Get {},
}

/// How a packet that this contract sent ended.
#[derive(Clone, Debug, PartialEq, Eq)]
pub enum IBCLifecycleComplete {
    /// The counterparty acknowledged the packet.
    IBCAck {
        /// The source channel of the packet.
        channel: String,
        /// The sequence number that the packet was sent with.
        sequence: u64,
        /// The acknowledgement, encoded as a string.
        ack: String,
        /// Whether the acknowledgement reports success.
        success: bool,
    },
    /// The packet timed out before it was received.
    IBCTimeout {
        /// The source channel of the packet.
        channel: String,
        /// The sequence number that the packet was sent with.
        sequence: u64,
    },
}

/// Calls that only the chain itself can make.
#[derive(Clone, Debug, PartialEq, Eq)]
pub enum SudoMsg {
    /// A packet lifecycle callback.
    IBCLifecycleComplete(IBCLifecycleComplete),
}

} // verus!
