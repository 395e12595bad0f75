use solana_program::secp256k1_recover::{secp256k1_recover, Secp256k1RecoverError};
use vstd::prelude::*;

use crate::bytes::bytes_equal;
use crate::digest::{keccak256, keccak256_of};
use crate::error::RbxError;

verus! {

#[verifier::external_type_specification]
#[verifier::external_body]
pub struct ExSecp256k1RecoverError(Secp256k1RecoverError);

/// The 64-byte public key that secp256k1 recovery gives for a 32-byte message hash, a
/// recovery id and a 64-byte signature r ∥ s; `None` where recovery fails.
pub uninterp spec fn secp256k1_recovered(hash: Seq<u8>, recovery_id: u8, signature: Seq<u8>) -> Option<
    Seq<u8>,
>;

/// The recovery id that a raw `v` stands for: 27 and 28 are read as 0 and 1.
pub open spec fn normalized_recovery_id(v: u8) -> u8 {
    if v >= 27 {
        (v - 27) as u8
    } else {
        v
    }
}

/// The 64 bytes of a public key that its address is hashed from: the key itself when it
/// has 64 bytes, the key without its marker byte when it has 65 bytes led by 0x04 or 0x00,
/// and otherwise its last 64 bytes.
pub open spec fn key_material(key: Seq<u8>) -> Seq<u8> {
    if key.len() == 64 {
        key
    } else if key.len() == 65 && (key[0] == 0x04u8 || key[0] == 0x00u8) {
        key.subrange(1, 65)
    } else {
        key.subrange(key.len() - 64, key.len() as int)
    }
}

/// The 20-byte address of a public key: the last 20 bytes of the Keccak-256 hash of its
/// key material.
pub open spec fn eth_address_of(key: Seq<u8>) -> Seq<u8> {
    keccak256_of(key_material(key)).subrange(12, 32)
}

/// What checking a signature against an expected address gives once recovery has been
/// tried: an error where recovery failed, else whether the recovered address matches.
pub open spec fn recovered_signer_check(recovered: Option<Seq<u8>>, expected: Seq<u8>) -> Result<
    bool,
    RbxError,
> {
    match recovered {
        None => Err(RbxError::InvalidSignature),
        Some(key) => Ok(eth_address_of(key) == expected),
    }
}

/// What checking signature (v, r, s) over `digest` against `expected` gives.
pub open spec fn signature_check(
    digest: Seq<u8>,
    v: u8,
    r: Seq<u8>,
    s: Seq<u8>,
    expected: Seq<u8>,
) -> Result<bool, RbxError> {
    let recovery_id = normalized_recovery_id(v);
    if recovery_id > 1 {
        Err(RbxError::InvalidSignatureFormat)
    } else {
        recovered_signer_check(secp256k1_recovered(digest, recovery_id, r + s), expected)
    }
}

/// Relies on solana_program::secp256k1_recover::secp256k1_recover: the public key that
/// recovery gives, as its 64 bytes, or the error where recovery fails.
#[verifier::external_body]
fn recover_public_key(hash: &[u8; 32], recovery_id: u8, signature: &[u8; 64]) -> (r: Result<
    [u8; 64],
    Secp256k1RecoverError,
>)
    ensures
        match r {
            Ok(key) => secp256k1_recovered(hash@, recovery_id, signature@) == Some(key@),
            Err(_) => secp256k1_recovered(hash@, recovery_id, signature@) is None,
        },
{
    secp256k1_recover(hash, recovery_id, signature).map(|key| key.to_bytes())
}

/// The recovery id for a raw `v` (27 and 28 become 0 and 1); an error unless it is 0 or 1.
pub fn normalize_recovery_id(v: u8) -> (r: Result<u8, RbxError>)
    ensures
        normalized_recovery_id(v) <= 1 ==> r == Ok::<u8, RbxError>(normalized_recovery_id(v)),
        normalized_recovery_id(v) > 1 ==> r == Err::<u8, RbxError>(
            RbxError::InvalidSignatureFormat,
        ),
{
    let recovery_id = if v >= 27 {
        v - 27
    } else {
        v
    };
    if recovery_id > 1 {
        Err(RbxError::InvalidSignatureFormat)
    } else {
        Ok(recovery_id)
    }
}

/// The address held in a key hash: its last 20 bytes.
pub fn address_from_key_hash(hash: &[u8; 32]) -> (r: [u8; 20])
    ensures
        r@ == hash@.subrange(12, 32),
{
    let mut address: [u8; 20] = [0u8; 20];
    let mut i: usize = 0;
    while i < 20
        invariant
            i <= 20,
            forall|j: int| 0 <= j < i ==> address@[j] == hash@[12 + j],
        decreases 20 - i,
    {
        address[i] = hash[12 + i];
        i = i + 1;
    }
    assert(address@ =~= hash@.subrange(12, 32));
    address
}

/// Derives the 20-byte address of a public key given as 64 bytes, or as 65 bytes with a
/// leading marker.
pub fn derive_eth_address(pubkey: &[u8]) -> (r: [u8; 20])
    requires
        pubkey@.len() >= 64,
    ensures
        r@ == eth_address_of(pubkey@),
{
    let n = pubkey.len();
    let key_to_hash: &[u8] = if n == 64 {
        pubkey
    } else if n == 65 && (pubkey[0] == 0x04u8 || pubkey[0] == 0x00u8) {
        &pubkey[1..65]
    } else {
        &pubkey[n - 64..n]
    };
    assert(key_to_hash@ == key_material(pubkey@));
    let hash = keccak256(key_to_hash);
    address_from_key_hash(&hash)
}

/// Compares the address of a recovered public key with `expected`; an error where recovery
/// gave no key.
pub fn check_recovered_signer(recovered: Option<[u8; 64]>, expected_signer: &[u8; 20]) -> (r:
    Result<bool, RbxError>)
    ensures
        r == recovered_signer_check(
            match recovered {
                Some(key) => Some(key@),
                None => None,
            },
            expected_signer@,
        ),
{
    match recovered {
        None => Err(RbxError::InvalidSignature),
        Some(key) => {
            let address = derive_eth_address(&key);
            Ok(bytes_equal(&address, expected_signer))
        },
    }
}

/// Checks that (v, r, s) is a signature over `digest` by the holder of `expected_signer`:
/// `Ok(true)` when the recovered address matches, `Ok(false)` when it differs.
pub fn verify_secp256k1_signature(
    digest: &[u8; 32],
    v: u8,
    r: &[u8; 32],
    s: &[u8; 32],
    expected_signer: &[u8; 20],
) -> (res: Result<bool, RbxError>)
    ensures
        res == signature_check(digest@, v, r@, s@, expected_signer@),
{
    let recovery_id = match normalize_recovery_id(v) {
        Ok(id) => id,
        Err(e) => return Err(e),
    };
    let mut signature: [u8; 64] = [0u8; 64];
    let mut i: usize = 0;
    while i < 32
        invariant
            i <= 32,
            forall|j: int| 0 <= j < i ==> signature@[j] == r@[j],
            forall|j: int| 0 <= j < i ==> signature@[32 + j] == s@[j],
        decreases 32 - i,
    {
        signature[i] = r[i];
        signature[32 + i] = s[i];
        i = i + 1;
    }
    assert(signature@ =~= r@ + s@);
    let recovered = match recover_public_key(digest, recovery_id, &signature) {
        Ok(key) => Some(key),
        Err(_) => None,
    };
    check_recovered_signer(recovered, expected_signer)
}

} // verus!
