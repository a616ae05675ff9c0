//! A counter that increases on direct calls and on the lifecycle callbacks of
//! the packets it sent over a cross-chain channel.
pub mod contract;
pub mod msg;
pub mod state;
