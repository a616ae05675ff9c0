//! Two small CosmWasm contracts: a counter that moves on direct calls and on
//! cross-chain packet callbacks, and a contract that builds a query for the
//! oracle module. Each entry point is a pure transition on plain values; the
//! host glue (storage, JSON decoding, the querier) is kept out of this crate.
pub mod framework;
pub mod ibc_hooks;
pub mod wasmtesting;
