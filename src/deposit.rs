use vstd::prelude::*;

use crate::error::{Failure, RbxError};
use crate::events::{DepositEvent, StakeEvent};
use crate::state::{State, StateModel, LOCKED, UNLOCKED};
use crate::text::{ticket, ticket_text};

verus! {

/// Why a deposit or stake of `amount` of accepted asset `token` is refused, if it is: the
/// lock is taken, the asset is not accepted or has no minimum, or the amount is below it.
pub open spec fn token_deposit_error(m: StateModel, token: Seq<u8>, amount: u64) -> Option<
    RbxError,
> {
    if m.reentry_lock_status != UNLOCKED {
        Some(RbxError::ReentrancyDetected)
    } else if !m.is_supported(token) {
        Some(RbxError::UnsupportedToken)
    } else {
        match m.min_deposit_of(token) {
            None => Some(RbxError::UnsupportedToken),
            Some(min) => if amount < min {
                Some(RbxError::AmountTooSmall)
            } else {
                None
            },
        }
    }
}

/// Why a native deposit or stake of `amount`, from an account holding `available`, is
/// refused, if it is: the lock is taken, the wrapped native asset has no minimum, the
/// amount is below it, or the account holds less than the amount.
pub open spec fn native_deposit_error(
    m: StateModel,
    wrapped_sol: Seq<u8>,
    amount: u64,
    available: u64,
) -> Option<RbxError> {
    if m.reentry_lock_status != UNLOCKED {
        Some(RbxError::ReentrancyDetected)
    } else {
        match m.min_deposit_of(wrapped_sol) {
            None => Some(RbxError::UnsupportedToken),
            Some(min) => if amount < min {
                Some(RbxError::AmountTooSmall)
            } else if amount > available {
                Some(RbxError::InsufficientFunds)
            } else {
                None
            },
        }
    }
}

/// `after` is `before` with the next deposit number taken and the lock held.
pub open spec fn deposit_taken(before: StateModel, after: StateModel) -> bool {
    after == (StateModel {
        next_deposit_num: (before.next_deposit_num + 1) as u64,
        reentry_lock_status: LOCKED,
        ..before
    })
}

/// `after` is `before` with the next stake number taken and the lock held.
pub open spec fn stake_taken(before: StateModel, after: StateModel) -> bool {
    after == (StateModel {
        next_stake_num: (before.next_stake_num + 1) as u64,
        reentry_lock_status: LOCKED,
        ..before
    })
}

/// What a deposit may give, for the refusal `refusal` that the vault's rules give: on
/// success the next deposit number is taken, the lock is back to unlocked and the event
/// carries the reference text "d_<number>_rbx_sol"; a refusal or a failed transfer leaves
/// the vault as it was.
pub open spec fn deposit_result<E>(
    before: StateModel,
    after: StateModel,
    refusal: Option<RbxError>,
    r: Result<DepositEvent, Failure<E>>,
    trader: [u8; 32],
    amount: u64,
    token: [u8; 32],
) -> bool {
    match r {
        Ok(event) => {
            &&& refusal is None
            &&& after == (StateModel {
                next_deposit_num: (before.next_deposit_num + 1) as u64,
                ..before
            })
            &&& after.reentry_lock_status == UNLOCKED
            &&& event.id@ == ticket_text("d_"@, before.next_deposit_num)
            &&& event.trader == trader && event.amount == amount && event.token == token
        },
        Err(Failure::Refused(e)) => refusal == Some(e) && after == before,
        Err(Failure::Transfer(_)) => refusal is None && after == before,
    }
}

/// What a stake may give, as `deposit_result` says for deposits, numbered from the stake
/// counter with reference text "s_<number>_rbx_sol".
pub open spec fn stake_result<E>(
    before: StateModel,
    after: StateModel,
    refusal: Option<RbxError>,
    r: Result<StakeEvent, Failure<E>>,
    trader: [u8; 32],
    amount: u64,
    token: [u8; 32],
) -> bool {
    match r {
        Ok(event) => {
            &&& refusal is None
            &&& after == (StateModel {
                next_stake_num: (before.next_stake_num + 1) as u64,
                ..before
            })
            &&& after.reentry_lock_status == UNLOCKED
            &&& event.id@ == ticket_text("s_"@, before.next_stake_num)
            &&& event.trader == trader && event.amount == amount && event.token == token
        },
        Err(Failure::Refused(e)) => refusal == Some(e) && after == before,
        Err(Failure::Transfer(_)) => refusal is None && after == before,
    }
}

fn check_token_deposit(state: &State, token: &[u8; 32], amount: u64) -> (r: Result<(), RbxError>)
    requires
        state.wf(),
    ensures
        match r {
            Ok(_) => token_deposit_error(state@, token@, amount) is None,
            Err(e) => token_deposit_error(state@, token@, amount) == Some(e),
        },
{
    if state.reentry_lock_status != UNLOCKED {
        return Err(RbxError::ReentrancyDetected);
    }
    if !crate::state::contains_key(&state.supported_tokens, token) {
        return Err(RbxError::UnsupportedToken);
    }
    match state.get_min_deposit(token) {
        None => Err(RbxError::UnsupportedToken),
        Some(min) => if amount < min {
            Err(RbxError::AmountTooSmall)
        } else {
            Ok(())
        },
    }
}

fn check_native_deposit(state: &State, wrapped_sol: &[u8; 32], amount: u64, available: u64) -> (r:
    Result<(), RbxError>)
    requires
        state.wf(),
    ensures
        match r {
            Ok(_) => native_deposit_error(state@, wrapped_sol@, amount, available) is None,
            Err(e) => native_deposit_error(state@, wrapped_sol@, amount, available) == Some(e),
        },
{
    if state.reentry_lock_status != UNLOCKED {
        return Err(RbxError::ReentrancyDetected);
    }
    match state.get_min_deposit(wrapped_sol) {
        None => Err(RbxError::UnsupportedToken),
        Some(min) => if amount < min {
            Err(RbxError::AmountTooSmall)
        } else if amount > available {
            Err(RbxError::InsufficientFunds)
        } else {
            Ok(())
        },
    }
}

/// Takes the next deposit number and the lock; the reference text "d_<number>_rbx_sol".
fn take_deposit_ticket(state: &mut State) -> (r: String)
    requires
        old(state).wf(),
        old(state).next_deposit_num < u64::MAX,
    ensures
        final(state).wf(),
        deposit_taken(old(state)@, final(state)@),
        r@ == ticket_text("d_"@, old(state).next_deposit_num),
{
    let number = state.next_deposit_num;
    state.next_deposit_num = number + 1;
    state.reentry_lock_status = LOCKED;
    assert(deposit_taken(old(state)@, state@));
    ticket("d_", number)
}

/// Takes the next stake number and the lock; the reference text "s_<number>_rbx_sol".
fn take_stake_ticket(state: &mut State) -> (r: String)
    requires
        old(state).wf(),
        old(state).next_stake_num < u64::MAX,
    ensures
        final(state).wf(),
        stake_taken(old(state)@, final(state)@),
        r@ == ticket_text("s_"@, old(state).next_stake_num),
{
    let number = state.next_stake_num;
    state.next_stake_num = number + 1;
    state.reentry_lock_status = LOCKED;
    assert(stake_taken(old(state)@, state@));
    ticket("s_", number)
}

/// Runs `transfer` while the lock is held, then gives the lock back. If the transfer fails,
/// the counters are also set back to `deposit_num` and `stake_num`.
fn settle<E, F: FnOnce() -> Result<(), E>>(
    state: &mut State,
    deposit_num: u64,
    stake_num: u64,
    transfer: F,
) -> (r: Result<(), E>)
    requires
        old(state).wf(),
        call_requires(transfer, ()),
    ensures
        final(state).wf(),
        r is Ok ==> final(state)@ == (StateModel { reentry_lock_status: UNLOCKED, ..old(state)@ }),
        r is Err ==> final(state)@ == (StateModel {
            reentry_lock_status: UNLOCKED,
            next_deposit_num: deposit_num,
            next_stake_num: stake_num,
            ..old(state)@
        }),
{
    let moved = transfer();
    state.reentry_lock_status = UNLOCKED;
    if moved.is_err() {
        state.next_deposit_num = deposit_num;
        state.next_stake_num = stake_num;
    }
    moved
}

/// Deposits `amount` of `token` from `user`: checks the deposit, takes the lock and the next
/// deposit number, runs `transfer` to move the value in, and gives the lock back.
pub fn deposit_token<E, F: FnOnce() -> Result<(), E>>(
    state: &mut State,
    token: [u8; 32],
    user: [u8; 32],
    amount: u64,
    transfer: F,
) -> (r: Result<DepositEvent, Failure<E>>)
    requires
        old(state).wf(),
        old(state).next_deposit_num < u64::MAX,
        call_requires(transfer, ()),
    ensures
        final(state).wf(),
        deposit_result(
            old(state)@,
            final(state)@,
            token_deposit_error(old(state)@, token@, amount),
            r,
            user,
            amount,
            token,
        ),
{
    match check_token_deposit(state, &token, amount) {
        Ok(_) => {},
        Err(e) => return Err(Failure::Refused(e)),
    }
    let deposit_num = state.next_deposit_num;
    let stake_num = state.next_stake_num;
    let id = take_deposit_ticket(state);
    match settle(state, deposit_num, stake_num, transfer) {
        Ok(_) => {},
        Err(e) => return Err(Failure::Transfer(e)),
    }
    Ok(DepositEvent { id, trader: user, amount, token: token })
}

/// As `deposit_token`, with the deposit credited to `for_trader`.
pub fn deposit_token_for<E, F: FnOnce() -> Result<(), E>>(
    state: &mut State,
    token: [u8; 32],
    amount: u64,
    for_trader: [u8; 32],
    transfer: F,
) -> (r: Result<DepositEvent, Failure<E>>)
    requires
        old(state).wf(),
        old(state).next_deposit_num < u64::MAX,
        call_requires(transfer, ()),
    ensures
        final(state).wf(),
        deposit_result(
            old(state)@,
            final(state)@,
            token_deposit_error(old(state)@, token@, amount),
            r,
            for_trader,
            amount,
            token,
        ),
{
    match check_token_deposit(state, &token, amount) {
        Ok(_) => {},
        Err(e) => return Err(Failure::Refused(e)),
    }
    let deposit_num = state.next_deposit_num;
    let stake_num = state.next_stake_num;
    let id = take_deposit_ticket(state);
    match settle(state, deposit_num, stake_num, transfer) {
        Ok(_) => {},
        Err(e) => return Err(Failure::Transfer(e)),
    }
    Ok(DepositEvent { id, trader: for_trader, amount, token: token })
}

/// Stakes `amount` of `token` from `user`, as `deposit_token` does, numbered from the stake
/// counter.
pub fn stake_token<E, F: FnOnce() -> Result<(), E>>(
    state: &mut State,
    token: [u8; 32],
    user: [u8; 32],
    amount: u64,
    transfer: F,
) -> (r: Result<StakeEvent, Failure<E>>)
    requires
        old(state).wf(),
        old(state).next_stake_num < u64::MAX,
        call_requires(transfer, ()),
    ensures
        final(state).wf(),
        stake_result(
            old(state)@,
            final(state)@,
            token_deposit_error(old(state)@, token@, amount),
            r,
            user,
            amount,
            token,
        ),
{
    match check_token_deposit(state, &token, amount) {
        Ok(_) => {},
        Err(e) => return Err(Failure::Refused(e)),
    }
    let deposit_num = state.next_deposit_num;
    let stake_num = state.next_stake_num;
    let id = take_stake_ticket(state);
    match settle(state, deposit_num, stake_num, transfer) {
        Ok(_) => {},
        Err(e) => return Err(Failure::Transfer(e)),
    }
    Ok(StakeEvent { id, trader: user, amount, token: token })
}

/// Deposits `amount` of the native asset from `user`, whose account holds `available`;
/// `wrapped_sol` is the asset it is recorded under. Runs `transfer` to move the value in
/// while the lock is held, and gives the lock back.
pub fn deposit_native<E, F: FnOnce() -> Result<(), E>>(
    state: &mut State,
    wrapped_sol: [u8; 32],
    user: [u8; 32],
    amount: u64,
    available: u64,
    transfer: F,
) -> (r: Result<DepositEvent, Failure<E>>)
    requires
        old(state).wf(),
        old(state).next_deposit_num < u64::MAX,
        call_requires(transfer, ()),
    ensures
        final(state).wf(),
        deposit_result(
            old(state)@,
            final(state)@,
            native_deposit_error(old(state)@, wrapped_sol@, amount, available),
            r,
            user,
            amount,
            wrapped_sol,
        ),
{
    match check_native_deposit(state, &wrapped_sol, amount, available) {
        Ok(_) => {},
        Err(e) => return Err(Failure::Refused(e)),
    }
    let deposit_num = state.next_deposit_num;
    let stake_num = state.next_stake_num;
    let id = take_deposit_ticket(state);
    match settle(state, deposit_num, stake_num, transfer) {
        Ok(_) => {},
        Err(e) => return Err(Failure::Transfer(e)),
    }
    Ok(DepositEvent { id, trader: user, amount, token: wrapped_sol })
}

/// As `deposit_native`, with the deposit credited to `for_trader`.
pub fn deposit_native_for<E, F: FnOnce() -> Result<(), E>>(
    state: &mut State,
    wrapped_sol: [u8; 32],
    amount: u64,
    available: u64,
    for_trader: [u8; 32],
    transfer: F,
) -> (r: Result<DepositEvent, Failure<E>>)
    requires
        old(state).wf(),
        old(state).next_deposit_num < u64::MAX,
        call_requires(transfer, ()),
    ensures
        final(state).wf(),
        deposit_result(
            old(state)@,
            final(state)@,
            native_deposit_error(old(state)@, wrapped_sol@, amount, available),
            r,
            for_trader,
            amount,
            wrapped_sol,
        ),
{
    match check_native_deposit(state, &wrapped_sol, amount, available) {
        Ok(_) => {},
        Err(e) => return Err(Failure::Refused(e)),
    }
    let deposit_num = state.next_deposit_num;
    let stake_num = state.next_stake_num;
    let id = take_deposit_ticket(state);
    match settle(state, deposit_num, stake_num, transfer) {
        Ok(_) => {},
        Err(e) => return Err(Failure::Transfer(e)),
    }
    Ok(DepositEvent { id, trader: for_trader, amount, token: wrapped_sol })
}

/// Stakes `amount` of the native asset from `user`, as `deposit_native` does, numbered from
/// the stake counter.
pub fn stake_native<E, F: FnOnce() -> Result<(), E>>(
    state: &mut State,
    wrapped_sol: [u8; 32],
    user: [u8; 32],
    amount: u64,
    available: u64,
    transfer: F,
) -> (r: Result<StakeEvent, Failure<E>>)
    requires
        old(state).wf(),
        old(state).next_stake_num < u64::MAX,
        call_requires(transfer, ()),
    ensures
        final(state).wf(),
        stake_result(
            old(state)@,
            final(state)@,
            native_deposit_error(old(state)@, wrapped_sol@, amount, available),
            r,
            user,
            amount,
            wrapped_sol,
        ),
{
    match check_native_deposit(state, &wrapped_sol, amount, available) {
        Ok(_) => {},
        Err(e) => return Err(Failure::Refused(e)),
    }
    let deposit_num = state.next_deposit_num;
    let stake_num = state.next_stake_num;
    let id = take_stake_ticket(state);
    match settle(state, deposit_num, stake_num, transfer) {
        Ok(_) => {},
        Err(e) => return Err(Failure::Transfer(e)),
    }
    Ok(StakeEvent { id, trader: user, amount, token: wrapped_sol })
}

} // verus!
