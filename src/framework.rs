//! The few items of `cosmwasm_std` that the contracts' logic calls.
use vstd::prelude::*;

verus! {

/// The host framework's error type, carried through unchanged.
#[verifier::external_type_specification]
#[verifier::external_body]
pub struct ExStdError(cosmwasm_std::StdError);

/// The decimal digits of `v` as ASCII bytes, most significant first, with no
/// leading zero (zero itself is the single digit `0`).
pub open spec fn decimal_digits(v: nat) -> Seq<u8>
    decreases v,
{
    if v < 10 {
        seq![(v + 48) as u8]
    } else {
        decimal_digits(v / 10).push((v % 10 + 48) as u8)
    }
}

/// Relies on `cosmwasm_std::to_json_binary`: a `u64` is written by
/// serde-json-wasm as its bare decimal digits, and that write never fails.
#[verifier::external_body]
pub(crate) fn u64_to_json(v: u64) -> (r: Result<Vec<u8>, cosmwasm_std::StdError>)
    ensures
        r is Ok,
        r->Ok_0@ == decimal_digits(v as nat),
{
    cosmwasm_std::to_json_binary(&v).map(|b| b.into())
}

} // verus!
