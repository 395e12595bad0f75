use vstd::prelude::*;

use crate::bytes::{all_zero, first_20, first_32, i64_from_le_bytes, is_all_zero, le_i64};
use crate::error::RbxError;
use crate::events::{CancelOperationEvent, ExecuteOperationEvent, QueueOperationEvent};
use crate::state::{
    contains_key, find_key, keys_view, OperationModel, State, StateModel, TimelockOperation,
    MAX_AUTHORITIES,
};

verus! {

/// What carrying out a change of type `operation_type` with argument `data` does to vault
/// `m`, or the error that stops it.
pub open spec fn operation_effect(m: StateModel, operation_type: u8, data: Seq<u8>) -> Result<
    StateModel,
    RbxError,
> {
    if operation_type == 1 {
        if data.len() != 32 {
            Err(RbxError::InvalidOperationData)
        } else {
            Ok(StateModel { owner: data, ..m })
        }
    } else if operation_type == 2 {
        if data.len() != 20 {
            Err(RbxError::InvalidOperationData)
        } else if all_zero(data) {
            Err(RbxError::InvalidSigner)
        } else {
            Ok(StateModel { withdrawal_signer: data, ..m })
        }
    } else if operation_type == 3 {
        if data.len() != 8 {
            Err(RbxError::InvalidOperationData)
        } else if le_i64(data) < 0 {
            Err(RbxError::InvalidTimelockDelay)
        } else {
            Ok(StateModel { timelock_delay: le_i64(data), ..m })
        }
    } else if operation_type == 4 {
        if data.len() != 32 {
            Err(RbxError::InvalidOperationData)
        } else if all_zero(data) {
            Err(RbxError::InvalidAuthority)
        } else if m.is_authority(data) {
            Err(RbxError::AuthorityAlreadyExists)
        } else if m.timelock_authorities.len() >= MAX_AUTHORITIES {
            Err(RbxError::TooManyAuthorities)
        } else {
            Ok(StateModel { timelock_authorities: m.timelock_authorities.push(data), ..m })
        }
    } else if operation_type == 5 {
        if data.len() != 32 {
            Err(RbxError::InvalidOperationData)
        } else if !m.is_authority(data) {
            Err(RbxError::AuthorityNotFound)
        } else if m.timelock_authorities.len() <= 1 {
            Err(RbxError::CannotRemoveLastAuthority)
        } else {
            Ok(
                StateModel {
                    timelock_authorities: m.timelock_authorities.remove(
                        m.timelock_authorities.index_of(data),
                    ),
                    ..m
                },
            )
        }
    } else {
        Err(RbxError::InvalidOperationType)
    }
}

/// Whether argument `data` meets the contract of change type `operation_type` against vault
/// `m`: a 32-byte owner; a 20-byte non-zero authority address; an 8-byte little-endian
/// non-negative delay; a 32-byte non-zero identity that is not yet an authority, with room
/// for one more; a 32-byte identity that is an authority, not the only one.
pub open spec fn payload_meets_contract(m: StateModel, operation_type: u8, data: Seq<u8>) -> bool {
    ||| operation_type == 1 && data.len() == 32
    ||| operation_type == 2 && data.len() == 20 && !all_zero(data)
    ||| operation_type == 3 && data.len() == 8 && le_i64(data) >= 0
    ||| operation_type == 4 && data.len() == 32 && !all_zero(data) && !m.is_authority(data)
        && m.timelock_authorities.len() < MAX_AUTHORITIES
    ||| operation_type == 5 && data.len() == 32 && m.is_authority(data)
        && m.timelock_authorities.len() > 1
}

/// What queueing a change of type `operation_type` with argument `data` at time `now`
/// gives: the vault with the change appended, executable once the current delay has
/// passed, or the error that stops it.
pub open spec fn queue_outcome(
    m: StateModel,
    caller: Seq<u8>,
    operation_type: u8,
    data: Seq<u8>,
    now: i64,
) -> Result<StateModel, RbxError> {
    if !m.is_authority(caller) {
        Err(RbxError::UnauthorizedAccess)
    } else if !(1 <= operation_type <= 5) {
        Err(RbxError::InvalidOperationType)
    } else {
        Ok(
            StateModel {
                pending_operations: m.pending_operations.push(
                    OperationModel {
                        operation_type,
                        data,
                        queued_at: now,
                        can_execute_at: (now + m.timelock_delay) as i64,
                    },
                ),
                ..m
            },
        )
    }
}

/// What executing pending change `index` at time `now` gives: the vault with the change
/// carried out and removed from the list, or the error that stops it.
pub open spec fn execute_outcome(m: StateModel, caller: Seq<u8>, index: u8, now: i64) -> Result<
    StateModel,
    RbxError,
> {
    if !m.is_authority(caller) {
        Err(RbxError::UnauthorizedAccess)
    } else if index >= m.pending_operations.len() {
        Err(RbxError::InvalidOperationIndex)
    } else if now < m.pending_operations[index as int].can_execute_at {
        Err(RbxError::TimelockDelayNotMet)
    } else {
        let op = m.pending_operations[index as int];
        match operation_effect(m, op.operation_type, op.data) {
            Ok(changed) => Ok(
                StateModel {
                    pending_operations: m.pending_operations.remove(index as int),
                    ..changed
                },
            ),
            Err(e) => Err(e),
        }
    }
}

/// What cancelling pending change `index` gives: the vault without it, or the error.
pub open spec fn cancel_outcome(m: StateModel, caller: Seq<u8>, index: u8) -> Result<
    StateModel,
    RbxError,
> {
    if !m.is_authority(caller) {
        Err(RbxError::UnauthorizedAccess)
    } else if index >= m.pending_operations.len() {
        Err(RbxError::InvalidOperationIndex)
    } else {
        Ok(StateModel { pending_operations: m.pending_operations.remove(index as int), ..m })
    }
}

/// Queues a governance change, executable once the delay in force now has passed.
pub fn queue_operation(
    state: &mut State,
    caller: &[u8; 32],
    operation_type: u8,
    data: Vec<u8>,
    now: i64,
) -> (r: Result<QueueOperationEvent, RbxError>)
    requires
        old(state).wf(),
        i64::MIN <= now + old(state).timelock_delay <= i64::MAX,
    ensures
        final(state).wf(),
        match r {
            Ok(event) => {
                &&& queue_outcome(old(state)@, caller@, operation_type, data@, now) == Ok::<
                    StateModel,
                    RbxError,
                >(final(state)@)
                &&& event == QueueOperationEvent {
                    operation_type,
                    execute_time: (now + old(state).timelock_delay) as i64,
                }
            },
            Err(e) => {
                &&& queue_outcome(old(state)@, caller@, operation_type, data@, now) == Err::<
                    StateModel,
                    RbxError,
                >(e)
                &&& final(state)@ == old(state)@
            },
        },
{
    if !state.is_timelock_authority(caller) {
        return Err(RbxError::UnauthorizedAccess);
    }
    if !(operation_type >= 1 && operation_type <= 5) {
        return Err(RbxError::InvalidOperationType);
    }
    let execute_time = now + state.timelock_delay;
    let operation = TimelockOperation { operation_type, data, queued_at: now, can_execute_at: execute_time };
    state.pending_operations.push(operation);
    assert(final(state)@.pending_operations =~= old(state)@.pending_operations.push(operation@));
    Ok(QueueOperationEvent { operation_type, execute_time })
}


/// Carries out the change held by pending operation `index`, leaving the pending list as it
/// is.
fn apply_pending_change(state: &mut State, index: usize) -> (r: Result<(), RbxError>)
    requires
        old(state).wf(),
        index < old(state).pending_operations@.len(),
    ensures
        match r {
            Ok(_) => operation_effect(
                old(state)@,
                old(state)@.pending_operations[index as int].operation_type,
                old(state)@.pending_operations[index as int].data,
            ) == Ok::<StateModel, RbxError>(final(state)@),
            Err(e) => {
                &&& operation_effect(
                    old(state)@,
                    old(state)@.pending_operations[index as int].operation_type,
                    old(state)@.pending_operations[index as int].data,
                ) == Err::<StateModel, RbxError>(e)
                &&& final(state)@ == old(state)@
            },
        },
{
    let operation_type = state.pending_operations[index].operation_type;
    let data: &Vec<u8> = &state.pending_operations[index].data;
    assert(data@ == old(state)@.pending_operations[index as int].data);
    if operation_type == 1 {
        if data.len() != 32 {
            return Err(RbxError::InvalidOperationData);
        }
        let new_owner = first_32(data.as_slice());
        assert(new_owner@ =~= data@);
        state.owner = new_owner;
        Ok(())
    } else if operation_type == 2 {
        if data.len() != 20 {
            return Err(RbxError::InvalidOperationData);
        }
        if is_all_zero(data.as_slice()) {
            return Err(RbxError::InvalidSigner);
        }
        let new_signer = first_20(data.as_slice());
        assert(new_signer@ =~= data@);
        state.withdrawal_signer = new_signer;
        Ok(())
    } else if operation_type == 3 {
        if data.len() != 8 {
            return Err(RbxError::InvalidOperationData);
        }
        let new_delay = i64_from_le_bytes(data.as_slice());
        if new_delay < 0 {
            return Err(RbxError::InvalidTimelockDelay);
        }
        state.timelock_delay = new_delay;
        Ok(())
    } else if operation_type == 4 {
        if data.len() != 32 {
            return Err(RbxError::InvalidOperationData);
        }
        let new_authority = first_32(data.as_slice());
        assert(new_authority@ =~= data@);
        if is_all_zero(&new_authority) {
            return Err(RbxError::InvalidAuthority);
        }
        if contains_key(&state.timelock_authorities, &new_authority) {
            return Err(RbxError::AuthorityAlreadyExists);
        }
        if state.timelock_authorities.len() >= MAX_AUTHORITIES {
            return Err(RbxError::TooManyAuthorities);
        }
        state.timelock_authorities.push(new_authority);
        assert(final(state)@.timelock_authorities =~= old(state)@.timelock_authorities.push(
            data@,
        ));
        Ok(())
    } else if operation_type == 5 {
        if data.len() != 32 {
            return Err(RbxError::InvalidOperationData);
        }
        let to_remove = first_32(data.as_slice());
        assert(to_remove@ =~= data@);
        let position = match find_key(&state.timelock_authorities, &to_remove) {
            Some(p) => p,
            None => return Err(RbxError::AuthorityNotFound),
        };
        if state.timelock_authorities.len() <= 1 {
            return Err(RbxError::CannotRemoveLastAuthority);
        }
        let ghost auths = old(state)@.timelock_authorities;
        assert(auths[position as int] == data@);
        assert(auths.index_of(data@) == position as int);
        state.timelock_authorities.remove(position);
        assert(final(state)@.timelock_authorities =~= auths.remove(position as int));
        Ok(())
    } else {
        Err(RbxError::InvalidOperationType)
    }
}

/// Executes pending governance change `operation_index` once its delay has passed, and
/// removes it from the list.
pub fn execute_operation(state: &mut State, caller: &[u8; 32], operation_index: u8, now: i64) -> (r:
    Result<ExecuteOperationEvent, RbxError>)
    requires
        old(state).wf(),
    ensures
        final(state).wf(),
        match r {
            Ok(event) => {
                &&& execute_outcome(old(state)@, caller@, operation_index, now) == Ok::<
                    StateModel,
                    RbxError,
                >(final(state)@)
                &&& event.operation_type == old(state)@.pending_operations[operation_index as int].operation_type
            },
            Err(e) => {
                &&& execute_outcome(old(state)@, caller@, operation_index, now) == Err::<
                    StateModel,
                    RbxError,
                >(e)
                &&& final(state)@ == old(state)@
            },
        },
{
    if !state.is_timelock_authority(caller) {
        return Err(RbxError::UnauthorizedAccess);
    }
    let index = operation_index as usize;
    if index >= state.pending_operations.len() {
        return Err(RbxError::InvalidOperationIndex);
    }
    let operation_type = state.pending_operations[index].operation_type;
    if now < state.pending_operations[index].can_execute_at {
        return Err(RbxError::TimelockDelayNotMet);
    }
    match apply_pending_change(state, index) {
        Ok(_) => {},
        Err(e) => return Err(e),
    }
    let ghost changed = state@;
    state.pending_operations.remove(index);
    assert(final(state)@.pending_operations =~= changed.pending_operations.remove(index as int));
    Ok(ExecuteOperationEvent { operation_type })
}

/// Withdraws pending governance change `operation_index` without carrying it out.
pub fn cancel_operation(state: &mut State, caller: &[u8; 32], operation_index: u8) -> (r: Result<
    CancelOperationEvent,
    RbxError,
>)
    requires
        old(state).wf(),
    ensures
        final(state).wf(),
        match r {
            Ok(event) => {
                &&& cancel_outcome(old(state)@, caller@, operation_index) == Ok::<
                    StateModel,
                    RbxError,
                >(final(state)@)
                &&& event.operation_type == old(state)@.pending_operations[operation_index as int].operation_type
                &&& event.authority@ == caller@
            },
            Err(e) => {
                &&& cancel_outcome(old(state)@, caller@, operation_index) == Err::<
                    StateModel,
                    RbxError,
                >(e)
                &&& final(state)@ == old(state)@
            },
        },
{
    if !state.is_timelock_authority(caller) {
        return Err(RbxError::UnauthorizedAccess);
    }
    let index = operation_index as usize;
    if index >= state.pending_operations.len() {
        return Err(RbxError::InvalidOperationIndex);
    }
    let operation_type = state.pending_operations[index].operation_type;
    state.pending_operations.remove(index);
    assert(final(state)@.pending_operations =~= old(state)@.pending_operations.remove(
        index as int,
    ));
    Ok(CancelOperationEvent { operation_type, authority: *caller })
}


/// A change queued at time `queued_at` under delay Δ cannot be executed before
/// `queued_at + Δ`; from that time on the delay no longer stands in the way, and executing
/// at exactly `queued_at + Δ` succeeds, removing the change from the list, whenever its
/// argument meets the contract of its type.
pub proof fn lemma_delay_enforced(
    m: StateModel,
    caller: Seq<u8>,
    operation_type: u8,
    data: Seq<u8>,
    queued_at: i64,
    now: i64,
)
    requires
        m.wf(),
        m.pending_operations.len() < 256,
        i64::MIN <= queued_at + m.timelock_delay <= i64::MAX,
        queue_outcome(m, caller, operation_type, data, queued_at) is Ok,
    ensures
        ({
            let queued = queue_outcome(m, caller, operation_type, data, queued_at)->Ok_0;
            let index = m.pending_operations.len() as u8;
            &&& queued.pending_operations[index as int].can_execute_at == queued_at
                + m.timelock_delay
            &&& now < queued_at + m.timelock_delay ==> execute_outcome(queued, caller, index, now)
                == Err::<StateModel, RbxError>(RbxError::TimelockDelayNotMet)
            &&& now >= queued_at + m.timelock_delay ==> execute_outcome(
                queued,
                caller,
                index,
                now,
            ) != Err::<StateModel, RbxError>(RbxError::TimelockDelayNotMet)
            &&& (execute_outcome(queued, caller, index, (queued_at + m.timelock_delay) as i64) is Ok
                <==> operation_effect(queued, operation_type, data) is Ok)
            &&& payload_meets_contract(m, operation_type, data) ==> {
                let executed = execute_outcome(
                    queued,
                    caller,
                    index,
                    (queued_at + m.timelock_delay) as i64,
                );
                &&& executed is Ok
                &&& executed->Ok_0.pending_operations.len() == queued.pending_operations.len() - 1
                &&& executed->Ok_0.pending_operations =~= m.pending_operations
            }
        }),
{
    let queued = queue_outcome(m, caller, operation_type, data, queued_at)->Ok_0;
    let index = m.pending_operations.len() as u8;
    assert(queued.pending_operations[index as int].operation_type == operation_type);
    assert(queued.is_authority(caller));
    if now >= queued_at + m.timelock_delay {
        match operation_effect(queued, operation_type, data) {
            Ok(_) => {},
            Err(e) => {
                assert(e != RbxError::TimelockDelayNotMet);
            },
        }
    }
}

/// A governance change that executes leaves a vault that keeps its invariant, so it still
/// has at least one timelock authority; removing the only authority is refused.
pub proof fn lemma_authority_floor(m: StateModel, caller: Seq<u8>, index: u8, now: i64)
    requires
        m.wf(),
    ensures
        execute_outcome(m, caller, index, now) is Ok ==> {
            let after = execute_outcome(m, caller, index, now)->Ok_0;
            after.wf() && after.timelock_authorities.len() >= 1
        },
        m.timelock_authorities.len() == 1 && index < m.pending_operations.len()
            && m.pending_operations[index as int].operation_type == 5
            && m.pending_operations[index as int].data.len() == 32 ==> execute_outcome(
            m,
            caller,
            index,
            now,
        ) is Err,
{
    if execute_outcome(m, caller, index, now) is Ok {
        let op = m.pending_operations[index as int];
        let auths = m.timelock_authorities;
        if op.operation_type == 4 {
            let pushed = auths.push(op.data);
            assert forall|i: int, j: int|
                0 <= i < pushed.len() && 0 <= j < pushed.len() && i != j implies pushed[i]
                != pushed[j] by {
                if i == auths.len() {
                    assert(!auths.contains(op.data));
                    assert(pushed[j] == auths[j]);
                } else if j == auths.len() {
                    assert(!auths.contains(op.data));
                    assert(pushed[i] == auths[i]);
                }
            }
        } else if op.operation_type == 5 {
            let k = auths.index_of(op.data);
            let removed = auths.remove(k);
            assert forall|i: int, j: int|
                0 <= i < removed.len() && 0 <= j < removed.len() && i != j implies removed[i]
                != removed[j] by {
                let ii = if i < k { i } else { i + 1 };
                let jj = if j < k { j } else { j + 1 };
                assert(removed[i] == auths[ii]);
                assert(removed[j] == auths[jj]);
            }
        }
    }
}

} // verus!
