//! A contract that forwards a query for all currency pairs to the oracle
//! module of its chain.
pub mod execute;
pub mod msgs;
pub mod query;
pub mod state;
