use rbx::error::RbxError;
use rbx::events::QueueOperationEvent;
use rbx::state::{State, TimelockOperation};
use rbx::timelock::{cancel_operation, execute_operation, queue_operation};
use rbx::vault::initialize;

const ADMIN: [u8; 32] = [3; 32];
const STRANGER: [u8; 32] = [4; 32];
const SIGNER: [u8; 20] = [5; 20];

fn vault(delay: i64) -> State {
    initialize([7; 32], [9; 32], 254, 253, [1; 32], 100, delay, SIGNER, vec![ADMIN]).unwrap()
}

#[test]
fn delay_scenario() {
    let mut state = vault(86400);
    let event = queue_operation(&mut state, &ADMIN, 3, 0i64.to_le_bytes().to_vec(), 1000);
    assert_eq!(event, Ok(QueueOperationEvent { operation_type: 3, execute_time: 87400 }));
    assert_eq!(state.pending_operations.len(), 1);
    assert_eq!(state.pending_operations[0].queued_at, 1000);
    assert_eq!(state.pending_operations[0].can_execute_at, 87400);
    assert_eq!(
        execute_operation(&mut state, &ADMIN, 0, 87399).unwrap_err(),
        RbxError::TimelockDelayNotMet
    );
    assert_eq!(state.pending_operations.len(), 1);
    assert_eq!(state.timelock_delay, 86400);
    let done = execute_operation(&mut state, &ADMIN, 0, 87400).unwrap();
    assert_eq!(done.operation_type, 3);
    assert_eq!(state.timelock_delay, 0);
    assert_eq!(state.pending_operations.len(), 0);
}

#[test]
fn delay_is_frozen_at_queue_time() {
    let mut state = vault(100);
    queue_operation(&mut state, &ADMIN, 3, 5000i64.to_le_bytes().to_vec(), 0).unwrap();
    queue_operation(&mut state, &ADMIN, 1, vec![8; 32], 10).unwrap();
    execute_operation(&mut state, &ADMIN, 0, 100).unwrap();
    assert_eq!(state.timelock_delay, 5000);
    assert_eq!(state.pending_operations[0].can_execute_at, 110);
    execute_operation(&mut state, &ADMIN, 0, 110).unwrap();
    assert_eq!(state.owner, [8; 32]);
}

#[test]
fn queue_requires_authority_and_known_type() {
    let mut state = vault(10);
    assert_eq!(
        queue_operation(&mut state, &STRANGER, 1, vec![8; 32], 0),
        Err(RbxError::UnauthorizedAccess)
    );
    assert_eq!(queue_operation(&mut state, &ADMIN, 0, vec![], 0), Err(RbxError::InvalidOperationType));
    assert_eq!(queue_operation(&mut state, &ADMIN, 6, vec![], 0), Err(RbxError::InvalidOperationType));
    assert!(state.pending_operations.is_empty());
}

#[test]
fn execute_checks_authority_and_index() {
    let mut state = vault(0);
    queue_operation(&mut state, &ADMIN, 1, vec![8; 32], 0).unwrap();
    assert_eq!(
        execute_operation(&mut state, &STRANGER, 0, 0).unwrap_err(),
        RbxError::UnauthorizedAccess
    );
    assert_eq!(
        execute_operation(&mut state, &ADMIN, 1, 0).unwrap_err(),
        RbxError::InvalidOperationIndex
    );
    assert_eq!(state.pending_operations.len(), 1);
}

#[test]
fn change_owner() {
    let mut state = vault(0);
    queue_operation(&mut state, &ADMIN, 1, vec![8; 31], 0).unwrap();
    assert_eq!(
        execute_operation(&mut state, &ADMIN, 0, 0).unwrap_err(),
        RbxError::InvalidOperationData
    );
    queue_operation(&mut state, &ADMIN, 1, vec![8; 32], 0).unwrap();
    execute_operation(&mut state, &ADMIN, 1, 0).unwrap();
    assert_eq!(state.owner, [8; 32]);
    assert_eq!(state.pending_operations.len(), 1);
}

#[test]
fn change_withdrawal_signer() {
    let mut state = vault(0);
    queue_operation(&mut state, &ADMIN, 2, vec![0; 20], 0).unwrap();
    assert_eq!(execute_operation(&mut state, &ADMIN, 0, 0).unwrap_err(), RbxError::InvalidSigner);
    queue_operation(&mut state, &ADMIN, 2, vec![6; 21], 0).unwrap();
    assert_eq!(
        execute_operation(&mut state, &ADMIN, 1, 0).unwrap_err(),
        RbxError::InvalidOperationData
    );
    queue_operation(&mut state, &ADMIN, 2, vec![6; 20], 0).unwrap();
    execute_operation(&mut state, &ADMIN, 2, 0).unwrap();
    assert_eq!(state.withdrawal_signer, [6; 20]);
    assert_eq!(state.pending_operations.len(), 2);
}

#[test]
fn negative_delay_is_refused() {
    let mut state = vault(0);
    queue_operation(&mut state, &ADMIN, 3, (-5i64).to_le_bytes().to_vec(), 0).unwrap();
    assert_eq!(
        execute_operation(&mut state, &ADMIN, 0, 0).unwrap_err(),
        RbxError::InvalidTimelockDelay
    );
    queue_operation(&mut state, &ADMIN, 3, vec![1; 7], 0).unwrap();
    assert_eq!(
        execute_operation(&mut state, &ADMIN, 1, 0).unwrap_err(),
        RbxError::InvalidOperationData
    );
    assert_eq!(state.timelock_delay, 0);
}

#[test]
fn add_authorities_up_to_the_limit() {
    let mut state = vault(0);
    queue_operation(&mut state, &ADMIN, 4, vec![0; 32], 0).unwrap();
    assert_eq!(execute_operation(&mut state, &ADMIN, 0, 0).unwrap_err(), RbxError::InvalidAuthority);
    cancel_operation(&mut state, &ADMIN, 0).unwrap();
    queue_operation(&mut state, &ADMIN, 4, ADMIN.to_vec(), 0).unwrap();
    assert_eq!(
        execute_operation(&mut state, &ADMIN, 0, 0).unwrap_err(),
        RbxError::AuthorityAlreadyExists
    );
    cancel_operation(&mut state, &ADMIN, 0).unwrap();
    for k in 20..24u8 {
        queue_operation(&mut state, &ADMIN, 4, vec![k; 32], 0).unwrap();
        execute_operation(&mut state, &ADMIN, 0, 0).unwrap();
    }
    assert_eq!(state.timelock_authorities.len(), 5);
    assert_eq!(state.timelock_authorities[4], [23; 32]);
    queue_operation(&mut state, &[21; 32], 4, vec![30; 32], 0).unwrap();
    assert_eq!(
        execute_operation(&mut state, &[22; 32], 0, 0).unwrap_err(),
        RbxError::TooManyAuthorities
    );
}

#[test]
fn remove_authorities_down_to_one() {
    let mut state = vault(0);
    queue_operation(&mut state, &ADMIN, 5, vec![40; 32], 0).unwrap();
    assert_eq!(
        execute_operation(&mut state, &ADMIN, 0, 0).unwrap_err(),
        RbxError::AuthorityNotFound
    );
    cancel_operation(&mut state, &ADMIN, 0).unwrap();
    queue_operation(&mut state, &ADMIN, 5, ADMIN.to_vec(), 0).unwrap();
    assert_eq!(
        execute_operation(&mut state, &ADMIN, 0, 0).unwrap_err(),
        RbxError::CannotRemoveLastAuthority
    );
    assert_eq!(state.timelock_authorities, vec![ADMIN]);
    cancel_operation(&mut state, &ADMIN, 0).unwrap();
    queue_operation(&mut state, &ADMIN, 4, vec![40; 32], 0).unwrap();
    execute_operation(&mut state, &ADMIN, 0, 0).unwrap();
    queue_operation(&mut state, &ADMIN, 5, ADMIN.to_vec(), 0).unwrap();
    execute_operation(&mut state, &ADMIN, 0, 0).unwrap();
    assert_eq!(state.timelock_authorities, vec![[40; 32]]);
    queue_operation(&mut state, &[40; 32], 5, vec![40; 32], 0).unwrap();
    assert_eq!(
        execute_operation(&mut state, &[40; 32], 0, 0).unwrap_err(),
        RbxError::CannotRemoveLastAuthority
    );
    assert_eq!(state.timelock_authorities.len(), 1);
}

#[test]
fn cancel_removes_without_effect() {
    let mut state = vault(50);
    queue_operation(&mut state, &ADMIN, 1, vec![8; 32], 0).unwrap();
    queue_operation(&mut state, &ADMIN, 2, vec![6; 20], 0).unwrap();
    assert_eq!(
        cancel_operation(&mut state, &STRANGER, 0).unwrap_err(),
        RbxError::UnauthorizedAccess
    );
    assert_eq!(cancel_operation(&mut state, &ADMIN, 2).unwrap_err(), RbxError::InvalidOperationIndex);
    let event = cancel_operation(&mut state, &ADMIN, 0).unwrap();
    assert_eq!(event.operation_type, 1);
    assert_eq!(event.authority, ADMIN);
    assert_eq!(state.owner, [9; 32]);
    assert_eq!(state.pending_operations.len(), 1);
    assert_eq!(state.pending_operations[0].operation_type, 2);
}

#[test]
fn unknown_stored_operation_type_is_refused() {
    let mut state = vault(0);
    state.pending_operations.push(TimelockOperation {
        operation_type: 9,
        data: vec![],
        queued_at: 0,
        can_execute_at: 0,
    });
    assert_eq!(
        execute_operation(&mut state, &ADMIN, 0, 0).unwrap_err(),
        RbxError::InvalidOperationType
    );
}
