//! The query that the contract forwards to the oracle module.
use vstd::prelude::*;

use crate::wasmtesting::msgs::QueryMsg;
use crate::wasmtesting::state::Contract;

verus! {

/// The gRPC method path of the oracle module's query for all currency pairs.
pub open spec fn currency_pairs_path() -> Seq<char> {
    "/slinky.oracle.v1.Query/GetAllCurrencyPairs"@
}

/// The oracle module's request for all currency pairs. The message has no
/// fields.
#[derive(Clone, Copy, Debug, PartialEq, Eq, Structural)]
pub struct GetAllCurrencyPairsRequest {}

impl GetAllCurrencyPairsRequest {
    pub fn new() -> (r: GetAllCurrencyPairsRequest)
        ensures
            r == (GetAllCurrencyPairsRequest {}),
    {
        GetAllCurrencyPairsRequest {}
    }

    /// The message's protobuf wire form. A message without fields, and here
    /// without unknown fields, is written as no bytes at all.
    pub fn write_to_bytes(&self) -> (r: Vec<u8>)
        ensures
            r@ == Seq::<u8>::empty(),
    {
        Vec::new()
    }
}

/// A query for a chain module, routed by its method path, with the
/// protobuf-encoded request as its payload.
#[derive(Clone, Debug, PartialEq, Eq)]
pub struct StargateQuery {
    pub path: String,
    pub data: Vec<u8>,
}

impl Contract {
    /// The query for all currency pairs: the oracle's method path and the
    /// encoded empty request.
    pub fn all_currency_pairs_request(&self) -> (r: StargateQuery)
        ensures
            r.path@ == currency_pairs_path(),
            r.data@ == Seq::<u8>::empty(),
    {
        let request = GetAllCurrencyPairsRequest::new();
        let data = request.write_to_bytes();
        let path = "/slinky.oracle.v1.Query/GetAllCurrencyPairs".to_string();
        proof {
            reveal_strlit("/slinky.oracle.v1.Query/GetAllCurrencyPairs");
        }
        StargateQuery { path, data }
    }

    /// The module query that answers `msg`; the host runs it and hands the
    /// answer back as JSON.
    pub fn query(&self, msg: QueryMsg) -> (r: StargateQuery)
        ensures
            r.path@ == currency_pairs_path(),
            r.data@ == Seq::<u8>::empty(),
    {
        match msg {
            QueryMsg::GetAllCurrencyPairs {} => self.all_currency_pairs_request(),
        }
    }
}

} // verus!
