use vstd::prelude::*;

verus! {

/// The ways a vault operation can fail. A failed operation changes nothing.
#[derive(Debug, Clone, Copy, PartialEq, Eq, Structural)]
pub enum RbxError {
    AmountTooSmall,
    InvalidSignature,
    AlreadyProcessed,
    WrongAmount,
    UnsupportedToken,
    TooManyTokens,
    InvalidToken,
    InvalidSignatureFormat,
    ReentrancyDetected,
    InsufficientFunds,
    InvalidSigner,
    UnauthorizedAccess,
    InvalidOperationIndex,
    TimelockDelayNotMet,
    InvalidOperationType,
    InvalidOperationData,
    InvalidTimelockDelay,
    InvalidAuthority,
    WithdrawalAlreadyProcessed,
    AuthorityAlreadyExists,
    AuthorityNotFound,
    CannotRemoveLastAuthority,
    NoAuthoritiesProvided,
    TooManyAuthorities,
    DuplicateAuthority,
}

/// Why a value-moving operation did not complete: the vault's rules refused it, or the
/// transfer of value itself failed, with the transfer's own error. Either way the vault is
/// left as it was.
#[derive(Debug, PartialEq, Eq)]
pub enum Failure<E> {
    Refused(RbxError),
    Transfer(E),
}

} // verus!
