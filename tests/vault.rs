use rbx::error::RbxError;
use rbx::state::{State, LOCKED, UNLOCKED};
use rbx::vault::{
    acquire_lock, cached_domain_separator, get_domain_separator, get_eip712_verifying_contract,
    get_next_deposit_num, get_next_stake_num, get_owner, get_timelock_delay, get_version,
    get_withdrawal_signer, initialize, is_well_formed, release_lock, support_token,
    unsupport_token,
};

const ADMIN: [u8; 32] = [3; 32];
const TOKEN: [u8; 32] = [1; 32];
const SIGNER: [u8; 20] = [5; 20];
const DOMAIN: [u8; 32] = [
    124, 62, 187, 255, 41, 243, 23, 110, 219, 53, 86, 235, 50, 63, 155, 170, 54, 72, 139, 72, 34,
    108, 7, 219, 173, 152, 39, 194, 181, 124, 76, 42,
];

fn vault() -> State {
    initialize([7; 32], [9; 32], 254, 253, TOKEN, 100, 86400, SIGNER, vec![ADMIN]).unwrap()
}

#[test]
fn initialize_sets_up_the_vault() {
    let state = vault();
    assert_eq!(get_owner(&state), [9; 32]);
    assert_eq!(get_withdrawal_signer(&state), SIGNER);
    assert_eq!(get_next_deposit_num(&state), 1000);
    assert_eq!(get_next_stake_num(&state), 1000);
    assert_eq!(get_timelock_delay(&state), 86400);
    assert_eq!(state.reentry_lock_status, UNLOCKED);
    assert_eq!(state.supported_tokens, vec![TOKEN]);
    assert_eq!(state.get_min_deposit(&TOKEN), Some(100));
    assert_eq!(state.timelock_authorities, vec![ADMIN]);
    assert_eq!(state.token_account_bump, 254);
    assert_eq!(state.sol_account_bump, 253);
    assert!(state.pending_operations.is_empty());
    assert_eq!(cached_domain_separator(&state), None);
}

#[test]
fn initialize_rejects_bad_authority_lists() {
    let init = |auths: Vec<[u8; 32]>, delay: i64| {
        initialize([7; 32], [9; 32], 0, 0, TOKEN, 100, delay, SIGNER, auths).err()
    };
    assert_eq!(init(vec![], 0), Some(RbxError::NoAuthoritiesProvided));
    assert_eq!(
        init((10..16u8).map(|k| [k; 32]).collect(), 0),
        Some(RbxError::TooManyAuthorities)
    );
    assert_eq!(init(vec![[1; 32], [2; 32], [1; 32]], 0), Some(RbxError::DuplicateAuthority));
    assert_eq!(init(vec![[1; 32]], -1), Some(RbxError::InvalidTimelockDelay));
    assert_eq!(init(vec![], -1), Some(RbxError::NoAuthoritiesProvided));
    assert_eq!(init((10..15u8).map(|k| [k; 32]).collect(), 0), None);
}

#[test]
fn domain_separator_is_derived_once_and_kept() {
    let mut state = vault();
    let first = get_domain_separator(&mut state);
    assert_eq!(first, DOMAIN);
    assert_eq!(cached_domain_separator(&state), Some(DOMAIN));
    let second = get_domain_separator(&mut state);
    assert_eq!(first, second);
}

#[test]
fn cached_domain_separator_is_trusted() {
    let mut state = vault();
    state.domain_separator = Some([0xee; 32]);
    assert_eq!(get_domain_separator(&mut state), [0xee; 32]);
}

#[test]
fn verifying_contract_text() {
    let state = vault();
    let text = get_eip712_verifying_contract(&state);
    assert_eq!(text, format!("0x{}", "07".repeat(32)));
    let mut other = vault();
    other.address[0] = 0xab;
    other.address[31] = 0x0f;
    let text = get_eip712_verifying_contract(&other);
    assert!(text.starts_with("0xab07"));
    assert!(text.ends_with("070f"));
    assert_eq!(text.len(), 66);
}

#[test]
fn version_text() {
    assert_eq!(get_version(), "1.0.1");
}

#[test]
fn reentrancy_lock() {
    let mut state = vault();
    assert_eq!(acquire_lock(&mut state), Ok(()));
    assert_eq!(state.reentry_lock_status, LOCKED);
    assert_eq!(acquire_lock(&mut state), Err(RbxError::ReentrancyDetected));
    release_lock(&mut state);
    assert_eq!(state.reentry_lock_status, UNLOCKED);
    assert_eq!(acquire_lock(&mut state), Ok(()));
}

#[test]
fn support_and_unsupport_tokens() {
    let mut state = vault();
    assert_eq!(
        support_token(&mut state, &[4; 32], [2; 32], 5).unwrap_err(),
        RbxError::UnauthorizedAccess
    );
    assert_eq!(support_token(&mut state, &ADMIN, [0; 32], 5).unwrap_err(), RbxError::InvalidToken);
    let event = support_token(&mut state, &ADMIN, [2; 32], 5).unwrap();
    assert_eq!(event.token, [2; 32]);
    assert_eq!(event.min_deposit, 5);
    assert_eq!(state.supported_tokens, vec![TOKEN, [2; 32]]);
    assert_eq!(state.get_min_deposit(&[2; 32]), Some(5));
    support_token(&mut state, &ADMIN, TOKEN, 77).unwrap();
    assert_eq!(state.supported_tokens.len(), 2);
    assert_eq!(state.get_min_deposit(&TOKEN), Some(77));
    assert_eq!(
        unsupport_token(&mut state, &ADMIN, [9; 32]).unwrap_err(),
        RbxError::UnsupportedToken
    );
    assert_eq!(
        unsupport_token(&mut state, &[4; 32], TOKEN).unwrap_err(),
        RbxError::UnauthorizedAccess
    );
    let event = unsupport_token(&mut state, &ADMIN, TOKEN).unwrap();
    assert_eq!(event.token, TOKEN);
    assert_eq!(state.supported_tokens, vec![[2; 32]]);
    assert_eq!(state.get_min_deposit(&TOKEN), None);
    assert_eq!(state.min_deposits.len(), 1);
}

#[test]
fn at_most_ten_tokens() {
    let mut state = vault();
    for k in 10..19u8 {
        support_token(&mut state, &ADMIN, [k; 32], 1).unwrap();
    }
    assert_eq!(state.supported_tokens.len(), 10);
    assert_eq!(
        support_token(&mut state, &ADMIN, [40; 32], 1).unwrap_err(),
        RbxError::TooManyTokens
    );
    assert_eq!(
        support_token(&mut state, &ADMIN, [12; 32], 9).unwrap_err(),
        RbxError::TooManyTokens
    );
    assert_eq!(state.get_min_deposit(&[12; 32]), Some(1));
    unsupport_token(&mut state, &ADMIN, [18; 32]).unwrap();
    support_token(&mut state, &ADMIN, [12; 32], 9).unwrap();
    assert_eq!(state.get_min_deposit(&[12; 32]), Some(9));
    assert_eq!(state.supported_tokens.len(), 9);
}

#[test]
fn minimum_deposit_table() {
    let mut state = vault();
    assert_eq!(state.get_min_deposit(&[2; 32]), None);
    state.set_min_deposit(TOKEN, 300);
    assert_eq!(state.get_min_deposit(&TOKEN), Some(300));
    assert_eq!(state.min_deposits.len(), 1);
    assert!(state.remove_min_deposit(&TOKEN));
    assert!(!state.remove_min_deposit(&TOKEN));
    assert_eq!(state.get_min_deposit(&TOKEN), None);
}

#[test]
fn authority_membership() {
    let state = vault();
    assert!(state.is_timelock_authority(&ADMIN));
    assert!(!state.is_timelock_authority(&[4; 32]));
}

#[test]
fn invariant_check() {
    let mut state = vault();
    assert!(is_well_formed(&state));
    get_domain_separator(&mut state);
    assert!(is_well_formed(&state));
    let mut bad_cache = vault();
    bad_cache.domain_separator = Some([0xee; 32]);
    assert!(!is_well_formed(&bad_cache));
    let mut negative = vault();
    negative.timelock_delay = -1;
    assert!(!is_well_formed(&negative));
    let mut no_admin = vault();
    no_admin.timelock_authorities.clear();
    assert!(!is_well_formed(&no_admin));
    let mut twice = vault();
    twice.timelock_authorities.push(ADMIN);
    assert!(!is_well_formed(&twice));
    let mut stray = vault();
    stray.min_deposits.push(([2; 32], 1));
    assert!(!is_well_formed(&stray));
    let mut repeated = vault();
    repeated.min_deposits.push((TOKEN, 1));
    assert!(!is_well_formed(&repeated));
    let mut odd_lock = vault();
    odd_lock.reentry_lock_status = 0;
    assert!(!is_well_formed(&odd_lock));
}
