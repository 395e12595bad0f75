use vstd::prelude::*;

use crate::bitmap::{
    marked_bits, bit_index_of, bit_is_set, block_index, block_index_of, processed_in, WithdrawalRecord,
    WITHDRAWALS_PER_ACCOUNT,
};
use crate::digest::{
    compute_domain_separator, domain_separator_of, get_withdrawal_hash, signing_digest,
    signing_digest_of, withdrawal_hash_of,
};
use crate::error::{Failure, RbxError};
use crate::events::WithdrawalEvent;
use crate::signature::{signature_check, verify_secp256k1_signature};
use crate::state::{State, StateModel, LOCKED, UNLOCKED};

verus! {

/// Whether every id redeemed in `before` is still redeemed in `after`.
pub open spec fn bits_kept(before: Seq<u8>, after: Seq<u8>) -> bool {
    forall|i: int| 0 <= i < WITHDRAWALS_PER_ACCOUNT ==> bit_is_set(before, i) ==> bit_is_set(after, i)
}

/// The digest the withdrawal authority must have signed to release `amount` of `token` to
/// `trader` under id `id`, from vault `m`.
pub open spec fn withdrawal_digest(
    m: StateModel,
    id: u64,
    token: Seq<u8>,
    trader: Seq<u8>,
    amount: u64,
) -> Seq<u8> {
    signing_digest_of(domain_separator_of(m.address), withdrawal_hash_of(id, token, trader, amount))
}

/// Whether a withdrawal may go ahead, checked in order: a non-zero amount, an id not yet
/// redeemed in `bits`, and a signature (v, r, s) by the vault's withdrawal authority over
/// the withdrawal's digest.
pub open spec fn withdrawal_check(
    m: StateModel,
    bits: Seq<u8>,
    id: u64,
    amount: u64,
    token: Seq<u8>,
    trader: Seq<u8>,
    v: u8,
    r: Seq<u8>,
    s: Seq<u8>,
) -> Result<(), RbxError> {
    if amount == 0 {
        Err(RbxError::WrongAmount)
    } else if processed_in(bits, id) {
        Err(RbxError::WithdrawalAlreadyProcessed)
    } else {
        match signature_check(
            withdrawal_digest(m, id, token, trader, amount),
            v,
            r,
            s,
            m.withdrawal_signer,
        ) {
            Err(e) => Err(e),
            Ok(false) => Err(RbxError::InvalidSignature),
            Ok(true) => Ok(()),
        }
    }
}

/// What starting a withdrawal gives: refused while the lock is taken, else as
/// `withdrawal_check` says.
pub open spec fn withdraw_outcome(
    m: StateModel,
    bits: Seq<u8>,
    id: u64,
    amount: u64,
    token: Seq<u8>,
    trader: Seq<u8>,
    v: u8,
    r: Seq<u8>,
    s: Seq<u8>,
) -> Result<(), RbxError> {
    if m.reentry_lock_status != UNLOCKED {
        Err(RbxError::ReentrancyDetected)
    } else {
        withdrawal_check(m, bits, id, amount, token, trader, v, r, s)
    }
}

/// `after` is `before` with `id` redeemed: a fresh record (index 0) takes the id's block
/// index, the id's bit is set and every other bit is kept, byte for byte.
pub open spec fn redeemed(before: WithdrawalRecord, after: WithdrawalRecord, id: u64) -> bool {
    &&& after.index == if before.index == 0 {
        block_index_of(id)
    } else {
        before.index
    }
    &&& after.processed_bits@ == marked_bits(before.processed_bits@, id)
    &&& forall|i: int|
        0 <= i < WITHDRAWALS_PER_ACCOUNT ==> #[trigger] bit_is_set(after.processed_bits@, i) == (i
            == bit_index_of(id) || bit_is_set(before.processed_bits@, i))
}

/// What the first step of a withdrawal of `amount` of `token` to `trader` under id `id`,
/// against signature (v, r, s), may give: on success the id is redeemed in the record, the
/// lock is taken, the domain separator is cached and the event describes the withdrawal; on
/// failure the error is the one `withdraw_outcome` gives and nothing changes.
pub open spec fn begin_result(
    before: StateModel,
    after: StateModel,
    record_before: WithdrawalRecord,
    record_after: WithdrawalRecord,
    res: Result<WithdrawalEvent, RbxError>,
    id: u64,
    amount: u64,
    token: [u8; 32],
    trader: [u8; 32],
    v: u8,
    r: Seq<u8>,
    s: Seq<u8>,
) -> bool {
    let outcome = withdraw_outcome(
        before,
        record_before.processed_bits@,
        id,
        amount,
        token@,
        trader@,
        v,
        r,
        s,
    );
    match res {
        Ok(event) => {
            &&& outcome is Ok
            &&& after == (StateModel {
                reentry_lock_status: LOCKED,
                domain_separator: Some(domain_separator_of(before.address)),
                ..before
            })
            &&& redeemed(record_before, record_after, id)
            &&& event.id == id && event.trader == trader && event.amount == amount
                && event.token == token
        },
        Err(e) => {
            &&& outcome == Err::<(), RbxError>(e)
            &&& after == before
            &&& record_after == record_before
        },
    }
}

/// Checks a withdrawal authorisation and redeems its id in `record`, the record of the
/// id's block (a fresh record, with index 0, takes the id's block index). On success the
/// id's bit is set and the domain separator is cached; on failure nothing changes. The
/// transfer itself is left to the caller.
pub fn process_withdrawal(
    state: &mut State,
    record: &mut WithdrawalRecord,
    id: u64,
    amount: u64,
    token: [u8; 32],
    trader: [u8; 32],
    v: u8,
    r: [u8; 32],
    s: [u8; 32],
) -> (res: Result<(), RbxError>)
    requires
        old(state).wf(),
    ensures
        final(state).wf(),
        res == withdrawal_check(
            old(state)@,
            old(record).processed_bits@,
            id,
            amount,
            token@,
            trader@,
            v,
            r@,
            s@,
        ),
        res is Ok ==> {
            &&& final(state)@ == (StateModel {
                domain_separator: Some(domain_separator_of(old(state)@.address)),
                ..old(state)@
            })
            &&& redeemed(*old(record), *final(record), id)
        },
        res is Err ==> final(state)@ == old(state)@ && *final(record) == *old(record),
        bits_kept(old(record).processed_bits@, final(record).processed_bits@),
{
    if amount == 0 {
        return Err(RbxError::WrongAmount);
    }
    if record.is_processed(id) {
        return Err(RbxError::WithdrawalAlreadyProcessed);
    }
    let domain_separator = match state.domain_separator {
        Some(cached) => cached,
        None => compute_domain_separator(&state.address),
    };
    assert(domain_separator@ == domain_separator_of(state@.address));
    let withdrawal_hash = get_withdrawal_hash(id, &token, &trader, amount);
    let digest = signing_digest(&domain_separator, &withdrawal_hash);
    match verify_secp256k1_signature(&digest, v, &r, &s, &state.withdrawal_signer) {
        Err(e) => return Err(e),
        Ok(false) => return Err(RbxError::InvalidSignature),
        Ok(true) => {},
    }
    if record.index == 0 {
        record.index = block_index(id);
    }
    record.mark_processed(id);
    state.domain_separator = Some(domain_separator);
    Ok(())
}

/// Starts a withdrawal: takes the reentrancy lock and redeems the authorisation as
/// `process_withdrawal` does. On success the lock stays taken for the transfer that
/// follows; on failure nothing changes.
fn begin_withdrawal(
    state: &mut State,
    record: &mut WithdrawalRecord,
    id: u64,
    amount: u64,
    token: [u8; 32],
    trader: [u8; 32],
    v: u8,
    r: [u8; 32],
    s: [u8; 32],
) -> (res: Result<WithdrawalEvent, RbxError>)
    requires
        old(state).wf(),
    ensures
        final(state).wf(),
        begin_result(
            old(state)@,
            final(state)@,
            *old(record),
            *final(record),
            res,
            id,
            amount,
            token,
            trader,
            v,
            r@,
            s@,
        ),
{
    if state.reentry_lock_status != UNLOCKED {
        return Err(RbxError::ReentrancyDetected);
    }
    match process_withdrawal(state, record, id, amount, token, trader, v, r, s) {
        Ok(_) => {},
        Err(e) => return Err(e),
    }
    state.reentry_lock_status = LOCKED;
    Ok(WithdrawalEvent { id, trader, amount, token })
}

/// What a withdrawal of `amount` of `token` to `trader` under id `id`, against signature
/// (v, r, s), may give: on success the id is redeemed in the record, the domain separator is
/// cached, the lock is back to unlocked and the event describes the withdrawal; when the
/// vault's rules refuse it, the error is the one `withdraw_outcome` gives; when the transfer
/// fails, the withdrawal was allowed. On either failure nothing changes.
pub open spec fn withdraw_result<E>(
    before: StateModel,
    after: StateModel,
    record_before: WithdrawalRecord,
    record_after: WithdrawalRecord,
    res: Result<WithdrawalEvent, Failure<E>>,
    id: u64,
    amount: u64,
    token: [u8; 32],
    trader: [u8; 32],
    v: u8,
    r: Seq<u8>,
    s: Seq<u8>,
) -> bool {
    let outcome = withdraw_outcome(
        before,
        record_before.processed_bits@,
        id,
        amount,
        token@,
        trader@,
        v,
        r,
        s,
    );
    match res {
        Ok(event) => {
            &&& outcome is Ok
            &&& after == (StateModel {
                domain_separator: Some(domain_separator_of(before.address)),
                ..before
            })
            &&& after.reentry_lock_status == UNLOCKED
            &&& redeemed(record_before, record_after, id)
            &&& event.id == id && event.trader == trader && event.amount == amount
                && event.token == token
        },
        Err(Failure::Refused(e)) => {
            &&& outcome == Err::<(), RbxError>(e)
            &&& after == before
            &&& record_after == record_before
        },
        Err(Failure::Transfer(_)) => {
            &&& outcome is Ok
            &&& after == before
            &&& record_after == record_before
        },
    }
}

/// Redeems the authorisation, runs `transfer` to move the value out while the lock is
/// held, and gives the lock back; a failed transfer undoes the redemption.
fn withdraw_with<E, F: FnOnce() -> Result<(), E>>(
    state: &mut State,
    record: &mut WithdrawalRecord,
    id: u64,
    amount: u64,
    token: [u8; 32],
    trader: [u8; 32],
    v: u8,
    r: [u8; 32],
    s: [u8; 32],
    transfer: F,
) -> (res: Result<WithdrawalEvent, Failure<E>>)
    requires
        old(state).wf(),
        call_requires(transfer, ()),
    ensures
        final(state).wf(),
        withdraw_result(
            old(state)@,
            final(state)@,
            *old(record),
            *final(record),
            res,
            id,
            amount,
            token,
            trader,
            v,
            r@,
            s@,
        ),
{
    let saved_index = record.index;
    let saved_bits = record.processed_bits;
    let saved_cache = state.domain_separator;
    let event = match begin_withdrawal(state, record, id, amount, token, trader, v, r, s) {
        Ok(event) => event,
        Err(e) => return Err(Failure::Refused(e)),
    };
    let moved = transfer();
    state.reentry_lock_status = UNLOCKED;
    match moved {
        Ok(_) => Ok(event),
        Err(e) => {
            record.index = saved_index;
            record.processed_bits = saved_bits;
            state.domain_separator = saved_cache;
            assert(state@ == old(state)@);
            Err(Failure::Transfer(e))
        },
    }
}

/// Withdraws `amount` of asset `token` to `trader` against the authorisation (v, r, s) for
/// id `id`, `record` being the record of the id's block; `transfer` moves the value out.
pub fn withdraw_token<E, F: FnOnce() -> Result<(), E>>(
    state: &mut State,
    record: &mut WithdrawalRecord,
    id: u64,
    amount: u64,
    token: [u8; 32],
    trader: [u8; 32],
    v: u8,
    r: [u8; 32],
    s: [u8; 32],
    transfer: F,
) -> (res: Result<WithdrawalEvent, Failure<E>>)
    requires
        old(state).wf(),
        call_requires(transfer, ()),
    ensures
        final(state).wf(),
        withdraw_result(
            old(state)@,
            final(state)@,
            *old(record),
            *final(record),
            res,
            id,
            amount,
            token,
            trader,
            v,
            r@,
            s@,
        ),
{
    withdraw_with(state, record, id, amount, token, trader, v, r, s, transfer)
}

/// Withdraws `amount` of the native asset, recorded under `wrapped_sol`, to `trader` against
/// the authorisation (v, r, s) for id `id`; `transfer` moves the value out.
pub fn withdraw_native<E, F: FnOnce() -> Result<(), E>>(
    state: &mut State,
    record: &mut WithdrawalRecord,
    id: u64,
    amount: u64,
    wrapped_sol: [u8; 32],
    trader: [u8; 32],
    v: u8,
    r: [u8; 32],
    s: [u8; 32],
    transfer: F,
) -> (res: Result<WithdrawalEvent, Failure<E>>)
    requires
        old(state).wf(),
        call_requires(transfer, ()),
    ensures
        final(state).wf(),
        withdraw_result(
            old(state)@,
            final(state)@,
            *old(record),
            *final(record),
            res,
            id,
            amount,
            wrapped_sol,
            trader,
            v,
            r@,
            s@,
        ),
{
    withdraw_with(state, record, id, amount, wrapped_sol, trader, v, r, s, transfer)
}

/// The digest a withdrawal must be signed over is a function of the withdrawal's fields and
/// the vault's identity alone: vaults that share an identity, whatever else differs between
/// them (authority, counters, cache), ask for the same digest.
pub proof fn lemma_digest_deterministic(
    m1: StateModel,
    m2: StateModel,
    id: u64,
    token: Seq<u8>,
    trader: Seq<u8>,
    amount: u64,
)
    requires
        m1.address == m2.address,
    ensures
        withdrawal_digest(m1, id, token, trader, amount) == withdrawal_digest(
            m2,
            id,
            token,
            trader,
            amount,
        ),
{
}

/// Redeeming an id in a record has one outcome: two records that both redeem `id` in the
/// same record hold the same index and the same bytes.
pub proof fn lemma_redeemed_unique(
    before: WithdrawalRecord,
    after1: WithdrawalRecord,
    after2: WithdrawalRecord,
    id: u64,
)
    requires
        redeemed(before, after1, id),
        redeemed(before, after2, id),
    ensures
        after1 == after2,
{
    assert(after1.processed_bits@ == after2.processed_bits@);
    assert(after1.processed_bits =~= after2.processed_bits);
}

/// Once an id has been marked as redeemed, and whatever happens to its record afterwards
/// (bits are only ever set), every later withdrawal of that id with a non-zero amount is
/// refused as already processed, whatever its signature, asset, recipient or vault.
pub proof fn lemma_replay_rejected(
    marked: Seq<u8>,
    later: Seq<u8>,
    m: StateModel,
    id: u64,
    amount: u64,
    token: Seq<u8>,
    trader: Seq<u8>,
    v: u8,
    r: Seq<u8>,
    s: Seq<u8>,
)
    requires
        processed_in(marked, id),
        bits_kept(marked, later),
        amount > 0,
    ensures
        withdrawal_check(m, later, id, amount, token, trader, v, r, s) == Err::<(), RbxError>(
            RbxError::WithdrawalAlreadyProcessed,
        ),
{
    assert(0 <= bit_index_of(id) < WITHDRAWALS_PER_ACCOUNT);
}

} // verus!
