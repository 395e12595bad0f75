use vstd::prelude::*;

use crate::bytes::{all_zero, bytes_equal, is_all_zero};
use crate::digest::{compute_domain_separator, domain_separator_of};
use crate::error::RbxError;
use crate::events::{SupportTokenEvent, UnsupportTokenEvent};
use crate::state::{
    contains_key, find_key, keys_view, State, StateModel, LOCKED, MAX_AUTHORITIES,
    MAX_SUPPORTED_TOKENS, UNLOCKED,
};
use crate::text::{hex_identity, hex_lower};

verus! {

/// The first number handed out to deposits and to stakes.
pub const FIRST_TICKET_NUMBER: u64 = 1000;

/// Why a vault cannot be set up with these arguments, if it cannot.
pub open spec fn initialize_error(timelock_delay: i64, authorities: Seq<Seq<u8>>) -> Option<
    RbxError,
> {
    if authorities.len() == 0 {
        Some(RbxError::NoAuthoritiesProvided)
    } else if authorities.len() > MAX_AUTHORITIES {
        Some(RbxError::TooManyAuthorities)
    } else if !authorities.no_duplicates() {
        Some(RbxError::DuplicateAuthority)
    } else if timelock_delay < 0 {
        Some(RbxError::InvalidTimelockDelay)
    } else {
        None
    }
}

/// Whether some identity occurs twice in `keys`.
pub fn has_duplicate_key(keys: &Vec<[u8; 32]>) -> (r: bool)
    ensures
        r == !keys_view(keys@).no_duplicates(),
{
    let n = keys.len();
    let ghost kv = keys_view(keys@);
    let mut i: usize = 0;
    while i < n
        invariant
            n == keys@.len(),
            kv == keys_view(keys@),
            i <= n,
            forall|a: int, b: int| 0 <= a < i && a < b < n ==> kv[a] != kv[b],
        decreases n - i,
    {
        let mut j: usize = i + 1;
        while j < n
            invariant
                n == keys@.len(),
                kv == keys_view(keys@),
                i < n,
                i + 1 <= j <= n,
                forall|a: int, b: int| 0 <= a < i && a < b < n ==> kv[a] != kv[b],
                forall|b: int| i < b < j ==> kv[i as int] != kv[b],
            decreases n - j,
        {
            if bytes_equal(&keys[i], &keys[j]) {
                assert(kv[i as int] == kv[j as int]);
                return true;
            }
            j = j + 1;
        }
        i = i + 1;
    }
    assert forall|a: int, b: int| 0 <= a < kv.len() && 0 <= b < kv.len() && a != b implies kv[a]
        != kv[b] by {
        if a < b {
            assert(kv[a] != kv[b]);
        } else {
            assert(kv[b] != kv[a]);
        }
    }
    false
}

/// Sets up a vault: `address` is its own identity, `default_token` its first accepted
/// asset with minimum deposit `min_deposit`, `timelock_delay` a non-negative number of
/// seconds, and `initial_authorities` the one to five distinct identities that govern it.
/// Deposit and stake numbers start at 1000.
pub fn initialize(
    address: [u8; 32],
    owner: [u8; 32],
    token_account_bump: u8,
    sol_account_bump: u8,
    default_token: [u8; 32],
    min_deposit: u64,
    timelock_delay: i64,
    withdrawal_signer: [u8; 20],
    initial_authorities: Vec<[u8; 32]>,
) -> (r: Result<State, RbxError>)
    ensures
        match r {
            Ok(state) => {
                &&& initialize_error(timelock_delay, keys_view(initial_authorities@)) is None
                &&& state.wf()
                &&& state@ == (StateModel {
                    address: address@,
                    owner: owner@,
                    withdrawal_signer: withdrawal_signer@,
                    next_deposit_num: FIRST_TICKET_NUMBER,
                    next_stake_num: FIRST_TICKET_NUMBER,
                    reentry_lock_status: UNLOCKED,
                    token_account_bump,
                    sol_account_bump,
                    supported_tokens: seq![default_token@],
                    min_deposits: seq![(default_token@, min_deposit)],
                    timelock_authorities: keys_view(initial_authorities@),
                    timelock_delay,
                    pending_operations: Seq::empty(),
                    domain_separator: None,
                })
            },
            Err(e) => initialize_error(timelock_delay, keys_view(initial_authorities@)) == Some(
                e,
            ),
        },
{
    if initial_authorities.len() == 0 {
        return Err(RbxError::NoAuthoritiesProvided);
    }
    if initial_authorities.len() > MAX_AUTHORITIES {
        return Err(RbxError::TooManyAuthorities);
    }
    if has_duplicate_key(&initial_authorities) {
        return Err(RbxError::DuplicateAuthority);
    }
    if timelock_delay < 0 {
        return Err(RbxError::InvalidTimelockDelay);
    }
    let mut supported_tokens: Vec<[u8; 32]> = Vec::new();
    supported_tokens.push(default_token);
    let mut min_deposits: Vec<([u8; 32], u64)> = Vec::new();
    min_deposits.push((default_token, min_deposit));
    let state = State {
        address,
        owner,
        withdrawal_signer,
        next_deposit_num: FIRST_TICKET_NUMBER,
        next_stake_num: FIRST_TICKET_NUMBER,
        reentry_lock_status: UNLOCKED,
        token_account_bump,
        sol_account_bump,
        supported_tokens,
        min_deposits,
        timelock_authorities: initial_authorities,
        timelock_delay,
        pending_operations: Vec::new(),
        domain_separator: None,
    };
    assert(state@.supported_tokens =~= seq![default_token@]);
    assert(state@.min_deposits =~= seq![(default_token@, min_deposit)]);
    assert(state@.pending_operations =~= Seq::empty());
    assert(state@.supported_tokens.contains(default_token@)) by {
        assert(state@.supported_tokens[0] == default_token@);
    }
    Ok(state)
}

/// Whether `state` keeps the vault invariant; for callers that load a vault from storage.
pub fn is_well_formed(state: &State) -> (r: bool)
    ensures
        r == state.wf(),
{
    let n_auth = state.timelock_authorities.len();
    if n_auth < 1 || n_auth > MAX_AUTHORITIES || has_duplicate_key(&state.timelock_authorities) {
        return false;
    }
    if state.supported_tokens.len() > MAX_SUPPORTED_TOKENS || has_duplicate_key(
        &state.supported_tokens,
    ) {
        return false;
    }
    let ghost m = state@;
    let mut keys: Vec<[u8; 32]> = Vec::new();
    let mut i: usize = 0;
    while i < state.min_deposits.len()
        invariant
            m == state@,
            i <= m.min_deposits.len(),
            keys@.len() == i,
            forall|j: int| 0 <= j < i ==> #[trigger] keys_view(keys@)[j] == m.min_deposits[j].0,
            forall|j: int| 0 <= j < i ==> m.supported_tokens.contains(#[trigger] m.min_deposits[j].0),
        decreases m.min_deposits.len() - i,
    {
        let key = state.min_deposits[i].0;
        assert(m.min_deposits[i as int].0 == key@);
        if !contains_key(&state.supported_tokens, &key) {
            return false;
        }
        let ghost old_keys = keys@;
        keys.push(key);
        assert forall|j: int| 0 <= j <= i implies #[trigger] keys_view(keys@)[j]
            == m.min_deposits[j].0 by {
            if j < i {
                assert(keys@[j] == old_keys[j]);
                assert(keys_view(old_keys)[j] == m.min_deposits[j].0);
            }
        }
        i = i + 1;
    }
    if has_duplicate_key(&keys) {
        proof {
            let kv = keys_view(keys@);
            let (a, b) = choose|a: int, b: int|
                0 <= a < kv.len() && 0 <= b < kv.len() && a != b && kv[a] == kv[b];
            assert(m.min_deposits[a].0 == m.min_deposits[b].0);
        }
        return false;
    }
    proof {
        let kv = keys_view(keys@);
        assert forall|a: int, b: int|
            0 <= a < m.min_deposits.len() && 0 <= b < m.min_deposits.len() && a != b implies
                #[trigger] m.min_deposits[a].0 != #[trigger] m.min_deposits[b].0 by {
            assert(kv[a] != kv[b]);
        }
    }
    if state.timelock_delay < 0 {
        return false;
    }
    if state.reentry_lock_status != UNLOCKED && state.reentry_lock_status != LOCKED {
        return false;
    }
    match state.domain_separator {
        None => true,
        Some(cached) => {
            let derived = compute_domain_separator(&state.address);
            bytes_equal(&cached, &derived)
        },
    }
}

/// Takes the reentrancy lock; fails if a value-moving operation already holds it.
pub fn acquire_lock(state: &mut State) -> (r: Result<(), RbxError>)
    requires
        old(state).wf(),
    ensures
        final(state).wf(),
        old(state).reentry_lock_status != UNLOCKED ==> r == Err::<(), RbxError>(
            RbxError::ReentrancyDetected,
        ) && final(state)@ == old(state)@,
        old(state).reentry_lock_status == UNLOCKED ==> r is Ok && final(state)@ == (StateModel {
            reentry_lock_status: LOCKED,
            ..old(state)@
        }),
{
    if state.reentry_lock_status != UNLOCKED {
        return Err(RbxError::ReentrancyDetected);
    }
    state.reentry_lock_status = LOCKED;
    Ok(())
}

/// Gives the reentrancy lock back once a value-moving operation has finished.
pub fn release_lock(state: &mut State)
    requires
        old(state).wf(),
    ensures
        final(state).wf(),
        final(state)@ == (StateModel { reentry_lock_status: UNLOCKED, ..old(state)@ }),
{
    state.reentry_lock_status = UNLOCKED;
}

/// The vault's domain separator: the cached value if there is one, else derived from the
/// vault's identity and cached. Every call on a vault gives the same value, and it is
/// derived at most once.
pub fn get_domain_separator(state: &mut State) -> (r: [u8; 32])
    requires
        old(state).wf(),
    ensures
        final(state).wf(),
        r@ == domain_separator_of(old(state).address@),
        final(state)@ == (StateModel { domain_separator: Some(r@), ..old(state)@ }),
        old(state).domain_separator is Some ==> final(state)@ == old(state)@,
{
    match state.domain_separator {
        Some(cached) => {
            assert(state@.domain_separator == Some(cached@));
            cached
        },
        None => {
            let result = compute_domain_separator(&state.address);
            state.domain_separator = Some(result);
            result
        },
    }
}

/// The domain separator if it has been derived; reads only.
pub fn cached_domain_separator(state: &State) -> (r: Option<[u8; 32]>)
    ensures
        r == state.domain_separator,
{
    state.domain_separator
}

/// The vault's identity as the verifying contract of its signing domain: "0x" followed by
/// 64 lowercase hexadecimal digits.
pub fn get_eip712_verifying_contract(state: &State) -> (r: String)
    ensures
        r@ == "0x"@ + hex_lower(state.address@),
{
    hex_identity(&state.address)
}

/// The version of this vault logic, "1.0.1".
pub fn get_version() -> (r: String)
    ensures
        r@ == "1.0.1"@,
{
    String::from_str("1.0.1")
}

/// The address whose signatures authorise withdrawals.
pub fn get_withdrawal_signer(state: &State) -> (r: [u8; 20])
    ensures
        r == state.withdrawal_signer,
{
    state.withdrawal_signer
}

/// The vault's owner.
pub fn get_owner(state: &State) -> (r: [u8; 32])
    ensures
        r == state.owner,
{
    state.owner
}

/// The number the next stake will get.
pub fn get_next_stake_num(state: &State) -> (r: u64)
    ensures
        r == state.next_stake_num,
{
    state.next_stake_num
}

/// The number the next deposit will get.
pub fn get_next_deposit_num(state: &State) -> (r: u64)
    ensures
        r == state.next_deposit_num,
{
    state.next_deposit_num
}

/// The delay, in seconds, that changes queued now must wait out.
pub fn get_timelock_delay(state: &State) -> (r: i64)
    ensures
        r == state.timelock_delay,
{
    state.timelock_delay
}


/// What accepting `token` with minimum deposit `min_deposit` gives: refused while ten
/// assets are accepted; otherwise the asset is added to the accepted list if it is not
/// there, and its minimum deposit set.
pub open spec fn support_outcome(m: StateModel, caller: Seq<u8>, token: Seq<u8>, min_deposit: u64) -> Result<
    StateModel,
    RbxError,
> {
    if !m.is_authority(caller) {
        Err(RbxError::UnauthorizedAccess)
    } else if all_zero(token) {
        Err(RbxError::InvalidToken)
    } else if m.supported_tokens.len() >= MAX_SUPPORTED_TOKENS {
        Err(RbxError::TooManyTokens)
    } else {
        Ok(
            StateModel {
                supported_tokens: if m.is_supported(token) {
                    m.supported_tokens
                } else {
                    m.supported_tokens.push(token)
                },
                min_deposits: m.with_min_deposit(token, min_deposit),
                ..m
            },
        )
    }
}

/// What no longer accepting `token` gives: the asset and its minimum deposit are removed.
pub open spec fn unsupport_outcome(m: StateModel, caller: Seq<u8>, token: Seq<u8>) -> Result<
    StateModel,
    RbxError,
> {
    if !m.is_authority(caller) {
        Err(RbxError::UnauthorizedAccess)
    } else if !m.is_supported(token) {
        Err(RbxError::UnsupportedToken)
    } else {
        Ok(
            StateModel {
                supported_tokens: m.supported_tokens.remove(m.supported_tokens.index_of(token)),
                min_deposits: m.without_min_deposit(token),
                ..m
            },
        )
    }
}

/// Accepts deposits of `token`, with minimum deposit `min_deposit`; for an asset already
/// accepted, sets its minimum deposit. Refused while the accepted list is full.
pub fn support_token(state: &mut State, caller: &[u8; 32], token: [u8; 32], min_deposit: u64) -> (r:
    Result<SupportTokenEvent, RbxError>)
    requires
        old(state).wf(),
    ensures
        final(state).wf(),
        match r {
            Ok(event) => {
                &&& support_outcome(old(state)@, caller@, token@, min_deposit) == Ok::<
                    StateModel,
                    RbxError,
                >(final(state)@)
                &&& event.token == token
                &&& event.min_deposit == min_deposit
            },
            Err(e) => {
                &&& support_outcome(old(state)@, caller@, token@, min_deposit) == Err::<
                    StateModel,
                    RbxError,
                >(e)
                &&& final(state)@ == old(state)@
            },
        },
{
    if !state.is_timelock_authority(caller) {
        return Err(RbxError::UnauthorizedAccess);
    }
    if is_all_zero(&token) {
        return Err(RbxError::InvalidToken);
    }
    if state.supported_tokens.len() >= MAX_SUPPORTED_TOKENS {
        return Err(RbxError::TooManyTokens);
    }
    if !contains_key(&state.supported_tokens, &token) {
        let ghost before = state@.supported_tokens;
        state.supported_tokens.push(token);
        assert(state@.supported_tokens =~= before.push(token@));
        assert(state@.supported_tokens[before.len() as int] == token@);
        assert forall|i: int| 0 <= i < state@.min_deposits.len() implies state@.supported_tokens.contains(
            #[trigger] state@.min_deposits[i].0,
        ) by {
            let k = choose|k: int| 0 <= k < before.len() && before[k] == state@.min_deposits[i].0;
            assert(state@.supported_tokens[k] == before[k]);
        }
    }
    assert(state@.supported_tokens.contains(token@));
    let ghost mid = state@;
    state.set_min_deposit(token, min_deposit);
    proof {
        let after = state@;
        assert forall|i: int| 0 <= i < after.min_deposits.len() implies after.supported_tokens.contains(
            #[trigger] after.min_deposits[i].0,
        ) by {
            if i < mid.min_deposits.len() && !(mid.has_min_deposit(token@) && i
                == mid.min_deposit_index(token@)) {
                assert(after.min_deposits[i] == mid.min_deposits[i]);
            }
        }
        assert forall|i: int, j: int|
            0 <= i < after.min_deposits.len() && 0 <= j < after.min_deposits.len() && i != j
                implies #[trigger] after.min_deposits[i].0 != #[trigger] after.min_deposits[j].0 by {
            if !mid.has_min_deposit(token@) {
                if i == mid.min_deposits.len() {
                    assert(mid.min_deposits[j].0 != token@);
                } else if j == mid.min_deposits.len() {
                    assert(mid.min_deposits[i].0 != token@);
                }
            }
        }
    }
    Ok(SupportTokenEvent { token, min_deposit })
}

/// Stops accepting deposits of `token` and drops its minimum deposit.
pub fn unsupport_token(state: &mut State, caller: &[u8; 32], token: [u8; 32]) -> (r: Result<
    UnsupportTokenEvent,
    RbxError,
>)
    requires
        old(state).wf(),
    ensures
        final(state).wf(),
        match r {
            Ok(event) => {
                &&& unsupport_outcome(old(state)@, caller@, token@) == Ok::<StateModel, RbxError>(
                    final(state)@,
                )
                &&& event.token == token
            },
            Err(e) => {
                &&& unsupport_outcome(old(state)@, caller@, token@) == Err::<StateModel, RbxError>(
                    e,
                )
                &&& final(state)@ == old(state)@
            },
        },
{
    if !state.is_timelock_authority(caller) {
        return Err(RbxError::UnauthorizedAccess);
    }
    let position = match find_key(&state.supported_tokens, &token) {
        Some(p) => p,
        None => return Err(RbxError::UnsupportedToken),
    };
    let ghost old_tokens = old(state)@.supported_tokens;
    assert(old_tokens.index_of(token@) == position as int);
    state.remove_min_deposit(&token);
    let ghost mid = state@;
    state.supported_tokens.remove(position);
    assert(state@.supported_tokens =~= old_tokens.remove(position as int));
    proof {
        let after = state@;
        let om = old(state)@;
        assert forall|i: int| 0 <= i < after.min_deposits.len() implies after.supported_tokens.contains(
            #[trigger] after.min_deposits[i].0,
        ) by {
            let key = after.min_deposits[i].0;
            let oi = if om.has_min_deposit(token@) && i >= om.min_deposit_index(token@) {
                i + 1
            } else {
                i
            };
            assert(key == om.min_deposits[oi].0);
            if key == token@ {
                assert(om.has_min_deposit(token@));
                assert(false);
            }
            assert(om.supported_tokens.contains(key));
            let k = choose|k: int| 0 <= k < old_tokens.len() && old_tokens[k] == key;
            assert(k != position);
            if k < position {
                assert(after.supported_tokens[k] == key);
            } else {
                assert(after.supported_tokens[k - 1] == key);
            }
        }
        assert forall|i: int, j: int|
            0 <= i < after.min_deposits.len() && 0 <= j < after.min_deposits.len() && i != j
                implies #[trigger] after.min_deposits[i].0 != #[trigger] after.min_deposits[j].0 by {
            if om.has_min_deposit(token@) {
                let d = om.min_deposit_index(token@);
                let oi = if i >= d { i + 1 } else { i };
                let oj = if j >= d { j + 1 } else { j };
                assert(after.min_deposits[i] == om.min_deposits[oi]);
                assert(after.min_deposits[j] == om.min_deposits[oj]);
            }
        }
        assert forall|i: int, j: int|
            0 <= i < after.supported_tokens.len() && 0 <= j < after.supported_tokens.len() && i
                != j implies after.supported_tokens[i] != after.supported_tokens[j] by {
            let oi = if i >= position { i + 1 } else { i };
            let oj = if j >= position { j + 1 } else { j };
            assert(after.supported_tokens[i] == old_tokens[oi]);
            assert(after.supported_tokens[j] == old_tokens[oj]);
        }
    }
    Ok(UnsupportTokenEvent { token })
}

} // verus!
