use vstd::prelude::*;

verus! {

/// A governance change was queued; it may run from `execute_time` on.
#[derive(Debug, Clone, Copy, PartialEq, Eq, Structural)]
pub struct QueueOperationEvent {
    pub operation_type: u8,
    pub execute_time: i64,
}

/// A governance change was carried out.
#[derive(Debug, Clone, Copy, PartialEq, Eq, Structural)]
pub struct ExecuteOperationEvent {
    pub operation_type: u8,
}

/// A governance change was withdrawn by `authority`.
#[derive(Debug, Clone, Copy)]
pub struct CancelOperationEvent {
    pub operation_type: u8,
    pub authority: [u8; 32],
}

/// An asset is now accepted, with minimum deposit `min_deposit`.
#[derive(Debug, Clone, Copy)]
pub struct SupportTokenEvent {
    pub token: [u8; 32],
    pub min_deposit: u64,
}

/// An asset is no longer accepted.
#[derive(Debug, Clone, Copy)]
pub struct UnsupportTokenEvent {
    pub token: [u8; 32],
}

/// Value left the vault against a redeemed withdrawal authorisation.
#[derive(Debug, Clone, Copy)]
pub struct WithdrawalEvent {
    pub id: u64,
    pub trader: [u8; 32],
    pub amount: u64,
    pub token: [u8; 32],
}

/// Value entered the vault as a deposit; `id` is its reference text.
#[derive(Debug, Clone)]
pub struct DepositEvent {
    pub id: String,
    pub trader: [u8; 32],
    pub amount: u64,
    pub token: [u8; 32],
}

/// Value entered the vault as a stake; `id` is its reference text.
#[derive(Debug, Clone)]
pub struct StakeEvent {
    pub id: String,
    pub trader: [u8; 32],
    pub amount: u64,
    pub token: [u8; 32],
}

} // verus!
