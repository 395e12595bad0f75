use rbx::deposit::{
    deposit_native, deposit_native_for, deposit_token, deposit_token_for, stake_native,
    stake_token,
};
use rbx::error::{Failure, RbxError};
use rbx::state::{State, LOCKED, UNLOCKED};
use rbx::vault::initialize;

const TOKEN: [u8; 32] = [1; 32];
const USER: [u8; 32] = [2; 32];
const OTHER: [u8; 32] = [6; 32];

fn vault() -> State {
    initialize([7; 32], [9; 32], 254, 253, TOKEN, 100, 0, [5; 20], vec![[3; 32]]).unwrap()
}

fn moved() -> Result<(), &'static str> {
    Ok(())
}

fn refused(e: RbxError) -> Failure<&'static str> {
    Failure::Refused(e)
}

#[test]
fn token_deposit_takes_a_number() {
    let mut state = vault();
    let event = deposit_token(&mut state, TOKEN, USER, 100, moved).unwrap();
    assert_eq!(event.id, "d_1000_rbx_sol");
    assert_eq!(event.trader, USER);
    assert_eq!(event.amount, 100);
    assert_eq!(event.token, TOKEN);
    assert_eq!(state.next_deposit_num, 1001);
    assert_eq!(state.next_stake_num, 1000);
    assert_eq!(state.reentry_lock_status, UNLOCKED);
    let event = deposit_token(&mut state, TOKEN, USER, 500, moved).unwrap();
    assert_eq!(event.id, "d_1001_rbx_sol");
    assert_eq!(state.reentry_lock_status, UNLOCKED);
}

#[test]
fn transfer_runs_once_per_deposit() {
    let mut state = vault();
    let mut calls = 0;
    deposit_token(&mut state, TOKEN, USER, 100, || {
        calls += 1;
        Ok::<(), ()>(())
    })
    .unwrap();
    assert_eq!(calls, 1);
    let mut calls = 0;
    let err = deposit_token(&mut state, TOKEN, USER, 1, || {
        calls += 1;
        Ok::<(), ()>(())
    })
    .unwrap_err();
    assert_eq!(err, Failure::Refused(RbxError::AmountTooSmall));
    assert_eq!(calls, 0);
}

#[test]
fn failed_transfer_leaves_the_vault_as_it_was() {
    let mut state = vault();
    let err = deposit_token(&mut state, TOKEN, USER, 100, || Err("declined")).unwrap_err();
    assert_eq!(err, Failure::Transfer("declined"));
    assert_eq!(state.next_deposit_num, 1000);
    assert_eq!(state.reentry_lock_status, UNLOCKED);
    let err = stake_native(&mut state, TOKEN, USER, 100, 100, || Err("declined")).unwrap_err();
    assert_eq!(err, Failure::Transfer("declined"));
    assert_eq!(state.next_stake_num, 1000);
    assert_eq!(state.reentry_lock_status, UNLOCKED);
}

#[test]
fn locked_vault_refuses_deposits() {
    let mut state = vault();
    state.reentry_lock_status = LOCKED;
    assert_eq!(
        deposit_token(&mut state, TOKEN, USER, 100, moved).unwrap_err(),
        refused(RbxError::ReentrancyDetected)
    );
    assert_eq!(
        stake_native(&mut state, TOKEN, USER, 100, 100, moved).unwrap_err(),
        refused(RbxError::ReentrancyDetected)
    );
    assert_eq!(state.next_deposit_num, 1000);
}

#[test]
fn token_deposit_checks() {
    let mut state = vault();
    assert_eq!(
        deposit_token(&mut state, [8; 32], USER, 100, moved).unwrap_err(),
        refused(RbxError::UnsupportedToken)
    );
    assert_eq!(
        deposit_token(&mut state, TOKEN, USER, 99, moved).unwrap_err(),
        refused(RbxError::AmountTooSmall)
    );
    assert_eq!(state.next_deposit_num, 1000);
    state.min_deposits.clear();
    assert_eq!(
        deposit_token(&mut state, TOKEN, USER, 100, moved).unwrap_err(),
        refused(RbxError::UnsupportedToken)
    );
}

#[test]
fn deposit_on_behalf() {
    let mut state = vault();
    let event = deposit_token_for(&mut state, TOKEN, 150, OTHER, moved).unwrap();
    assert_eq!(event.trader, OTHER);
    assert_eq!(event.id, "d_1000_rbx_sol");
    let event = deposit_native_for(&mut state, TOKEN, 150, 150, OTHER, moved).unwrap();
    assert_eq!(event.trader, OTHER);
    assert_eq!(event.id, "d_1001_rbx_sol");
    assert_eq!(state.reentry_lock_status, UNLOCKED);
}

#[test]
fn stakes_have_their_own_numbers() {
    let mut state = vault();
    let event = stake_token(&mut state, TOKEN, USER, 100, moved).unwrap();
    assert_eq!(event.id, "s_1000_rbx_sol");
    assert_eq!(state.next_stake_num, 1001);
    assert_eq!(state.next_deposit_num, 1000);
    let event = stake_native(&mut state, TOKEN, USER, 200, 1000, moved).unwrap();
    assert_eq!(event.id, "s_1001_rbx_sol");
    assert_eq!(event.token, TOKEN);
    assert_eq!(state.reentry_lock_status, UNLOCKED);
}

#[test]
fn native_deposit_checks() {
    let mut state = vault();
    assert_eq!(
        deposit_native(&mut state, [8; 32], USER, 100, 1000, moved).unwrap_err(),
        refused(RbxError::UnsupportedToken)
    );
    assert_eq!(
        deposit_native(&mut state, TOKEN, USER, 50, 1000, moved).unwrap_err(),
        refused(RbxError::AmountTooSmall)
    );
    assert_eq!(
        deposit_native(&mut state, TOKEN, USER, 1001, 1000, moved).unwrap_err(),
        refused(RbxError::InsufficientFunds)
    );
    let event = deposit_native(&mut state, TOKEN, USER, 1000, 1000, moved).unwrap();
    assert_eq!(event.amount, 1000);
    assert_eq!(event.trader, USER);
    assert_eq!(state.reentry_lock_status, UNLOCKED);
}

#[test]
fn large_numbers_in_reference_text() {
    let mut state = vault();
    state.next_deposit_num = 18_446_744_073_709_551_614;
    let event = deposit_token(&mut state, TOKEN, USER, 100, moved).unwrap();
    assert_eq!(event.id, "d_18446744073709551614_rbx_sol");
    let mut state = vault();
    state.next_stake_num = 0;
    assert_eq!(stake_token(&mut state, TOKEN, USER, 100, moved).unwrap().id, "s_0_rbx_sol");
}
