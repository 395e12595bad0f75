use vstd::prelude::*;

use crate::bytes::bytes_equal;
use crate::digest::domain_separator_of;

verus! {

/// Most assets the vault accepts at once.
pub const MAX_SUPPORTED_TOKENS: usize = 10;

/// Most timelock authorities at once.
pub const MAX_AUTHORITIES: usize = 5;

/// Lock status while no value-moving operation is under way.
pub const UNLOCKED: u8 = 1;

/// Lock status while a value-moving operation is under way.
pub const LOCKED: u8 = 2;

/// A governance change waiting out its delay. `operation_type` selects the change and
/// `data` carries its argument: 1 sets the owner (32 bytes), 2 the withdrawal authority
/// (20 bytes), 3 the delay (8 bytes, little-endian), 4 adds and 5 removes a timelock
/// authority (32 bytes).
#[derive(Clone)]
pub struct TimelockOperation {
    pub operation_type: u8,
    pub data: Vec<u8>,
    pub queued_at: i64,
    pub can_execute_at: i64,
}

/// A pending governance change, as plain values.
pub struct OperationModel {
    pub operation_type: u8,
    pub data: Seq<u8>,
    pub queued_at: i64,
    pub can_execute_at: i64,
}

impl View for TimelockOperation {
    type V = OperationModel;

    open spec fn view(&self) -> OperationModel {
        OperationModel {
            operation_type: self.operation_type,
            data: self.data@,
            queued_at: self.queued_at,
            can_execute_at: self.can_execute_at,
        }
    }
}

/// The configuration and bookkeeping of one vault.
pub struct State {
    /// The vault's own identity, bound into its signing domain.
    pub address: [u8; 32],
    pub owner: [u8; 32],
    /// Address of the key whose signatures authorise withdrawals.
    pub withdrawal_signer: [u8; 20],
    pub next_deposit_num: u64,
    pub next_stake_num: u64,
    pub reentry_lock_status: u8,
    pub token_account_bump: u8,
    pub sol_account_bump: u8,
    pub supported_tokens: Vec<[u8; 32]>,
    pub min_deposits: Vec<([u8; 32], u64)>,
    pub timelock_authorities: Vec<[u8; 32]>,
    pub timelock_delay: i64,
    pub pending_operations: Vec<TimelockOperation>,
    /// The domain separator, once it has been derived.
    pub domain_separator: Option<[u8; 32]>,
}

/// The state of a vault, as plain values.
pub struct StateModel {
    pub address: Seq<u8>,
    pub owner: Seq<u8>,
    pub withdrawal_signer: Seq<u8>,
    pub next_deposit_num: u64,
    pub next_stake_num: u64,
    pub reentry_lock_status: u8,
    pub token_account_bump: u8,
    pub sol_account_bump: u8,
    pub supported_tokens: Seq<Seq<u8>>,
    pub min_deposits: Seq<(Seq<u8>, u64)>,
    pub timelock_authorities: Seq<Seq<u8>>,
    pub timelock_delay: i64,
    pub pending_operations: Seq<OperationModel>,
    pub domain_separator: Option<Seq<u8>>,
}

/// A list of 32-byte identities, as byte sequences.
pub open spec fn keys_view(keys: Seq<[u8; 32]>) -> Seq<Seq<u8>> {
    keys.map_values(|k: [u8; 32]| k@)
}

impl View for State {
    type V = StateModel;

    open spec fn view(&self) -> StateModel {
        StateModel {
            address: self.address@,
            owner: self.owner@,
            withdrawal_signer: self.withdrawal_signer@,
            next_deposit_num: self.next_deposit_num,
            next_stake_num: self.next_stake_num,
            reentry_lock_status: self.reentry_lock_status,
            token_account_bump: self.token_account_bump,
            sol_account_bump: self.sol_account_bump,
            supported_tokens: keys_view(self.supported_tokens@),
            min_deposits: self.min_deposits@.map_values(|e: ([u8; 32], u64)| (e.0@, e.1)),
            timelock_authorities: keys_view(self.timelock_authorities@),
            timelock_delay: self.timelock_delay,
            pending_operations: self.pending_operations@.map_values(|op: TimelockOperation| op@),
            domain_separator: match self.domain_separator {
                Some(d) => Some(d@),
                None => None,
            },
        }
    }
}

impl StateModel {
    /// Whether `key` may queue, execute and cancel governance changes.
    pub open spec fn is_authority(self, key: Seq<u8>) -> bool {
        self.timelock_authorities.contains(key)
    }

    /// Whether deposits of `token` are accepted.
    pub open spec fn is_supported(self, token: Seq<u8>) -> bool {
        self.supported_tokens.contains(token)
    }

    /// Whether the minimum-deposit table has an entry for `token`.
    pub open spec fn has_min_deposit(self, token: Seq<u8>) -> bool {
        exists|i: int| 0 <= i < self.min_deposits.len() && #[trigger] self.min_deposits[i].0 == token
    }

    /// The place of `token` in the minimum-deposit table.
    pub open spec fn min_deposit_index(self, token: Seq<u8>) -> int {
        choose|i: int| 0 <= i < self.min_deposits.len() && #[trigger] self.min_deposits[i].0 == token
    }

    /// The minimum deposit of `token`, if it has one.
    pub open spec fn min_deposit_of(self, token: Seq<u8>) -> Option<u64> {
        if self.has_min_deposit(token) {
            Some(self.min_deposits[self.min_deposit_index(token)].1)
        } else {
            None
        }
    }

    /// The minimum-deposit table with `token` set to `amount`: its entry replaced if it has
    /// one, else a new entry at the end.
    pub open spec fn with_min_deposit(self, token: Seq<u8>, amount: u64) -> Seq<(Seq<u8>, u64)> {
        if self.has_min_deposit(token) {
            self.min_deposits.update(self.min_deposit_index(token), (token, amount))
        } else {
            self.min_deposits.push((token, amount))
        }
    }

    /// The minimum-deposit table without the entry of `token`.
    pub open spec fn without_min_deposit(self, token: Seq<u8>) -> Seq<(Seq<u8>, u64)> {
        if self.has_min_deposit(token) {
            self.min_deposits.remove(self.min_deposit_index(token))
        } else {
            self.min_deposits
        }
    }

    /// The invariant of a vault: a non-negative delay, one to five distinct authorities, at most ten distinct
    /// assets, a minimum-deposit entry only for a supported asset and at most one per
    /// asset, a lock that is either locked or unlocked, and a cached domain separator, if
    /// any, that is the one derived from the vault's identity.
    pub open spec fn wf(self) -> bool {
        &&& 1 <= self.timelock_authorities.len() <= MAX_AUTHORITIES
        &&& self.timelock_authorities.no_duplicates()
        &&& self.supported_tokens.len() <= MAX_SUPPORTED_TOKENS
        &&& self.supported_tokens.no_duplicates()
        &&& forall|i: int|
            0 <= i < self.min_deposits.len() ==> self.supported_tokens.contains(
                #[trigger] self.min_deposits[i].0,
            )
        &&& forall|i: int, j: int|
            0 <= i < self.min_deposits.len() && 0 <= j < self.min_deposits.len() && i != j
                ==> #[trigger] self.min_deposits[i].0 != #[trigger] self.min_deposits[j].0
        &&& self.timelock_delay >= 0
        &&& self.reentry_lock_status == UNLOCKED || self.reentry_lock_status == LOCKED
        &&& self.domain_separator is Some ==> self.domain_separator == Some(
            domain_separator_of(self.address),
        )
    }
}

/// The position of `key` in `keys`, if it is there.
pub fn find_key(keys: &Vec<[u8; 32]>, key: &[u8; 32]) -> (r: Option<usize>)
    ensures
        match r {
            Some(i) => i < keys@.len() && keys_view(keys@)[i as int] == key@,
            None => !keys_view(keys@).contains(key@),
        },
{
    let mut i: usize = 0;
    while i < keys.len()
        invariant
            i <= keys@.len(),
            forall|j: int| 0 <= j < i ==> keys_view(keys@)[j] != key@,
        decreases keys@.len() - i,
    {
        if bytes_equal(&keys[i], key) {
            return Some(i);
        }
        i = i + 1;
    }
    None
}

/// Whether `key` is in `keys`.
pub fn contains_key(keys: &Vec<[u8; 32]>, key: &[u8; 32]) -> (r: bool)
    ensures
        r == keys_view(keys@).contains(key@),
{
    match find_key(keys, key) {
        Some(_) => true,
        None => false,
    }
}

impl State {
    /// The invariant of a vault, over its model.
    pub open spec fn wf(&self) -> bool {
        self@.wf()
    }

    /// Whether `key` is a timelock authority.
    pub fn is_timelock_authority(&self, key: &[u8; 32]) -> (r: bool)
        ensures
            r == self@.is_authority(key@),
    {
        contains_key(&self.timelock_authorities, key)
    }

    /// The position of `token` in the minimum-deposit table.
    fn find_min_deposit(&self, token: &[u8; 32]) -> (r: Option<usize>)
        ensures
            match r {
                Some(i) => i < self.min_deposits@.len() && self@.min_deposits[i as int].0 == token@,
                None => !self@.has_min_deposit(token@),
            },
    {
        let mut i: usize = 0;
        while i < self.min_deposits.len()
            invariant
                i <= self.min_deposits@.len(),
                forall|j: int| 0 <= j < i ==> self@.min_deposits[j].0 != token@,
            decreases self.min_deposits@.len() - i,
        {
            if bytes_equal(&self.min_deposits[i].0, token) {
                return Some(i);
            }
            i = i + 1;
        }
        None
    }

    /// The minimum deposit of `token`, if it has an entry.
    pub fn get_min_deposit(&self, token: &[u8; 32]) -> (r: Option<u64>)
        requires
            self.wf(),
        ensures
            r == self@.min_deposit_of(token@),
    {
        match self.find_min_deposit(token) {
            Some(i) => {
                assert(self@.min_deposits[i as int].0 == token@);
                Some(self.min_deposits[i].1)
            },
            None => None,
        }
    }

    /// Sets the minimum deposit of `token` to `amount`, replacing its entry if it has one
    /// and adding one otherwise.
    pub fn set_min_deposit(&mut self, token: [u8; 32], amount: u64)
        requires
            old(self).wf(),
        ensures
            final(self)@ == (StateModel {
                min_deposits: old(self)@.with_min_deposit(token@, amount),
                ..old(self)@
            }),
    {
        match self.find_min_deposit(&token) {
            Some(i) => {
                assert(self@.min_deposits[i as int].0 == token@);
                self.min_deposits.set(i, (token, amount));
                assert(self@.min_deposits =~= old(self)@.min_deposits.update(
                    old(self)@.min_deposit_index(token@),
                    (token@, amount),
                ));
            },
            None => {
                self.min_deposits.push((token, amount));
                assert(self@.min_deposits =~= old(self)@.min_deposits.push((token@, amount)));
            },
        }
    }

    /// Removes the minimum-deposit entry of `token`; whether there was one.
    pub fn remove_min_deposit(&mut self, token: &[u8; 32]) -> (r: bool)
        requires
            old(self).wf(),
        ensures
            r == old(self)@.has_min_deposit(token@),
            final(self)@ == (StateModel {
                min_deposits: old(self)@.without_min_deposit(token@),
                ..old(self)@
            }),
    {
        match self.find_min_deposit(token) {
            Some(i) => {
                assert(self@.min_deposits[i as int].0 == token@);
                self.min_deposits.remove(i);
                assert(self@.min_deposits =~= old(self)@.min_deposits.remove(
                    old(self)@.min_deposit_index(token@),
                ));
                true
            },
            None => {
                assert(self@ == old(self)@);
                false
            },
        }
    }
}

} // verus!
