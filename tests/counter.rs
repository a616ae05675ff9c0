use contracts::ibc_hooks::contract::{execute, execute_increase, instantiate, query, sudo, CountError};
use contracts::ibc_hooks::msg::{ExecuteMsg, IBCLifecycleComplete, InstantiateMsg, QueryMsg, SudoMsg};
use contracts::ibc_hooks::state::Count;

fn ack(sequence: u64, success: bool) -> SudoMsg {
    SudoMsg::IBCLifecycleComplete(IBCLifecycleComplete::IBCAck {
        channel: "channel-0".to_string(),
        sequence,
        ack: "eyJyZXN1bHQiOiJBUT09In0=".to_string(),
        success,
    })
}

fn timeout(sequence: u64) -> SudoMsg {
    SudoMsg::IBCLifecycleComplete(IBCLifecycleComplete::IBCTimeout {
        channel: "channel-0".to_string(),
        sequence,
    })
}

#[test]
fn instantiate_starts_at_zero() {
    assert_eq!(instantiate(InstantiateMsg {}), Count { val: 0 });
}

#[test]
fn increase_adds_one() {
    let c = instantiate(InstantiateMsg {});
    let c = execute(c, ExecuteMsg::Increase {}).unwrap();
    assert_eq!(c, Count { val: 1 });
    let c = execute_increase(c).unwrap();
    assert_eq!(c, Count { val: 2 });
}

#[test]
fn increase_overflows_at_max() {
    let r = execute(Count { val: u64::MAX }, ExecuteMsg::Increase {});
    assert_eq!(r, Err(CountError::Overflow { current: u64::MAX, amount: 1 }));
}

#[test]
fn successful_ack_adds_sequence() {
    assert_eq!(sudo(Count { val: 5 }, ack(7, true)), Ok(Count { val: 12 }));
}

#[test]
fn failed_ack_adds_one() {
    assert_eq!(sudo(Count { val: 5 }, ack(7, false)), Ok(Count { val: 6 }));
}

#[test]
fn timeout_adds_sequence() {
    assert_eq!(sudo(Count { val: 10 }, timeout(3)), Ok(Count { val: 13 }));
}

#[test]
fn sudo_with_zero_sequence_keeps_count() {
    assert_eq!(sudo(Count { val: 4 }, timeout(0)), Ok(Count { val: 4 }));
    assert_eq!(sudo(Count { val: 4 }, ack(0, true)), Ok(Count { val: 4 }));
}

#[test]
fn sudo_overflow_is_an_error() {
    assert_eq!(
        sudo(Count { val: u64::MAX - 1 }, timeout(2)),
        Err(CountError::Overflow { current: u64::MAX - 1, amount: 2 })
    );
    assert_eq!(sudo(Count { val: u64::MAX - 1 }, ack(9, false)), Ok(Count { val: u64::MAX }));
}

#[test]
fn query_answers_decimal_json() {
    assert_eq!(query(Count { val: 42 }, QueryMsg::Get {}).unwrap(), b"42".to_vec());
    assert_eq!(query(Count { val: 0 }, QueryMsg::Get {}).unwrap(), b"0".to_vec());
    assert_eq!(
        query(Count { val: u64::MAX }, QueryMsg::Get {}).unwrap(),
        b"18446744073709551615".to_vec()
    );
}
