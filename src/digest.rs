use sha3::Digest;
use vstd::prelude::*;

use crate::bytes::{append_bytes, be_bytes, lemma_be_bytes_injective, u64_to_be_bytes};

verus! {

/// Type hash of the withdrawal structure:
/// Keccak-256 of "Withdrawal(uint256 id,address token,address trader,uint256 amount)".
pub const WITHDRAWAL_TYPEHASH: [u8; 32] = [
    167, 69, 94, 218, 166, 15, 227, 162, 173, 23, 189, 249, 11, 198, 237, 102, 6, 5, 183, 189,
    69, 157, 74, 166, 94, 139, 214, 92, 182, 237, 67, 161,
];

/// Type hash of the signing domain: Keccak-256 of
/// "EIP712Domain(string name,string version,uint256 chainId,address verifyingContract)".
pub const EIP712_DOMAIN_TYPEHASH: [u8; 32] = [
    139, 115, 195, 198, 155, 184, 254, 61, 81, 46, 204, 76, 247, 89, 204, 121, 35, 159, 123, 23,
    155, 15, 250, 202, 169, 167, 93, 82, 43, 57, 64, 15,
];

/// The protocol name bound into the domain, "RabbitXWithdrawal" in ASCII.
pub const DOMAIN_NAME: [u8; 17] = [
    82, 97, 98, 98, 105, 116, 88, 87, 105, 116, 104, 100, 114, 97, 119, 97, 108,
];

/// The protocol version bound into the domain, "1" in ASCII.
pub const DOMAIN_VERSION: [u8; 1] = [49];

/// The fixed chain identifier of the domain: "SOLANA" in ASCII, read as a number.
pub const CHAIN_ID: u64 = 0x534f4c414e41;

/// What Keccak-256 gives for a message.
pub uninterp spec fn keccak256_of(data: Seq<u8>) -> Seq<u8>;

/// The chain identifier as a 32-byte big-endian word.
pub open spec fn chain_id_word() -> Seq<u8> {
    Seq::new(24, |i: int| 0u8) + be_bytes(CHAIN_ID)
}

/// The bytes hashed into the domain separator, given the hashes of the name and version.
pub open spec fn domain_message(name_hash: Seq<u8>, version_hash: Seq<u8>, address: Seq<u8>) -> Seq<
    u8,
> {
    EIP712_DOMAIN_TYPEHASH@ + name_hash + version_hash + chain_id_word() + address
}

/// The domain separator of the vault whose identity is `address`.
pub open spec fn domain_separator_of(address: Seq<u8>) -> Seq<u8> {
    keccak256_of(
        domain_message(keccak256_of(DOMAIN_NAME@), keccak256_of(DOMAIN_VERSION@), address),
    )
}

/// The bytes hashed into the structure hash of one withdrawal.
pub open spec fn withdrawal_message(id: u64, token: Seq<u8>, trader: Seq<u8>, amount: u64) -> Seq<
    u8,
> {
    WITHDRAWAL_TYPEHASH@ + be_bytes(id) + token + trader + be_bytes(amount)
}

/// The structure hash of one withdrawal.
pub open spec fn withdrawal_hash_of(id: u64, token: Seq<u8>, trader: Seq<u8>, amount: u64) -> Seq<
    u8,
> {
    keccak256_of(withdrawal_message(id, token, trader, amount))
}

/// The typed-data message: the two prefix bytes 0x19 0x01, the domain, the structure hash.
pub open spec fn signing_message(domain_separator: Seq<u8>, withdrawal_hash: Seq<u8>) -> Seq<u8> {
    seq![0x19u8, 0x01u8] + domain_separator + withdrawal_hash
}

/// The digest that the withdrawal authority signs.
pub open spec fn signing_digest_of(domain_separator: Seq<u8>, withdrawal_hash: Seq<u8>) -> Seq<u8> {
    keccak256_of(signing_message(domain_separator, withdrawal_hash))
}

/// Relies on sha3's `Keccak256` (new, update, finalize): the 32-byte Keccak-256 digest
/// of `data`, which depends on the bytes of `data` alone.
#[verifier::external_body]
pub(crate) fn keccak256(data: &[u8]) -> (r: [u8; 32])
    ensures
        r@ == keccak256_of(data@),
{
    let mut hasher = sha3::Keccak256::new();
    hasher.update(data);
    hasher.finalize().into()
}

/// The bytes hashed into the domain separator, from the hashes of the name and version
/// and the vault's identity.
pub fn domain_preimage(name_hash: &[u8; 32], version_hash: &[u8; 32], address: &[u8; 32]) -> (r:
    Vec<u8>)
    ensures
        r@ == domain_message(name_hash@, version_hash@, address@),
{
    let mut out: Vec<u8> = Vec::with_capacity(160);
    append_bytes(&mut out, &EIP712_DOMAIN_TYPEHASH);
    append_bytes(&mut out, name_hash);
    append_bytes(&mut out, version_hash);
    let mut chain_word: [u8; 32] = [0u8; 32];
    let be = u64_to_be_bytes(CHAIN_ID);
    let mut i: usize = 0;
    while i < 8
        invariant
            i <= 8,
            be@ == be_bytes(CHAIN_ID),
            forall|j: int| 0 <= j < 24 ==> chain_word@[j] == 0u8,
            forall|j: int| 0 <= j < i ==> chain_word@[24 + j] == be@[j],
        decreases 8 - i,
    {
        chain_word[24 + i] = be[i];
        i = i + 1;
    }
    assert(chain_word@ =~= chain_id_word());
    append_bytes(&mut out, &chain_word);
    append_bytes(&mut out, address);
    out
}

/// Derives the domain separator of the vault whose identity is `address`.
pub fn compute_domain_separator(address: &[u8; 32]) -> (r: [u8; 32])
    ensures
        r@ == domain_separator_of(address@),
{
    let name_hash = keccak256(&DOMAIN_NAME);
    let version_hash = keccak256(&DOMAIN_VERSION);
    let message = domain_preimage(&name_hash, &version_hash, address);
    keccak256(message.as_slice())
}

/// The bytes hashed into the structure hash of one withdrawal: the type hash, the id
/// big-endian, the asset, the recipient, the amount big-endian.
pub fn withdrawal_preimage(id: u64, token: &[u8; 32], trader: &[u8; 32], amount: u64) -> (r: Vec<
    u8,
>)
    ensures
        r@ == withdrawal_message(id, token@, trader@, amount),
{
    let mut out: Vec<u8> = Vec::with_capacity(112);
    append_bytes(&mut out, &WITHDRAWAL_TYPEHASH);
    append_bytes(&mut out, &u64_to_be_bytes(id));
    append_bytes(&mut out, token);
    append_bytes(&mut out, trader);
    append_bytes(&mut out, &u64_to_be_bytes(amount));
    out
}

/// The structure hash of one withdrawal.
pub fn get_withdrawal_hash(id: u64, token: &[u8; 32], trader: &[u8; 32], amount: u64) -> (r: [u8;
    32])
    ensures
        r@ == withdrawal_hash_of(id, token@, trader@, amount),
{
    let message = withdrawal_preimage(id, token, trader, amount);
    keccak256(message.as_slice())
}

/// The typed-data message for a domain separator and a structure hash.
pub fn signing_preimage(domain_separator: &[u8; 32], withdrawal_hash: &[u8; 32]) -> (r: Vec<u8>)
    ensures
        r@ == signing_message(domain_separator@, withdrawal_hash@),
{
    let mut out: Vec<u8> = Vec::with_capacity(66);
    out.push(0x19u8);
    out.push(0x01u8);
    append_bytes(&mut out, domain_separator);
    append_bytes(&mut out, withdrawal_hash);
    assert(seq![0x19u8, 0x01u8] =~= seq![0x19u8].push(0x01u8));
    out
}

/// The digest that the withdrawal authority signs.
pub fn signing_digest(domain_separator: &[u8; 32], withdrawal_hash: &[u8; 32]) -> (r: [u8; 32])
    ensures
        r@ == signing_digest_of(domain_separator@, withdrawal_hash@),
{
    let message = signing_preimage(domain_separator, withdrawal_hash);
    keccak256(message.as_slice())
}


/// Withdrawals that differ in any field (id, asset, recipient or amount) are hashed from
/// different messages.
pub proof fn lemma_withdrawal_message_injective(
    id1: u64,
    token1: Seq<u8>,
    trader1: Seq<u8>,
    amount1: u64,
    id2: u64,
    token2: Seq<u8>,
    trader2: Seq<u8>,
    amount2: u64,
)
    requires
        token1.len() == 32,
        trader1.len() == 32,
        token2.len() == 32,
        trader2.len() == 32,
        withdrawal_message(id1, token1, trader1, amount1) == withdrawal_message(
            id2,
            token2,
            trader2,
            amount2,
        ),
    ensures
        id1 == id2,
        token1 == token2,
        trader1 == trader2,
        amount1 == amount2,
{
    let m1 = withdrawal_message(id1, token1, trader1, amount1);
    let m2 = withdrawal_message(id2, token2, trader2, amount2);
    assert(m1.subrange(32, 40) =~= be_bytes(id1));
    assert(m2.subrange(32, 40) =~= be_bytes(id2));
    assert(m1.subrange(40, 72) =~= token1);
    assert(m2.subrange(40, 72) =~= token2);
    assert(m1.subrange(72, 104) =~= trader1);
    assert(m2.subrange(72, 104) =~= trader2);
    assert(m1.subrange(104, 112) =~= be_bytes(amount1));
    assert(m2.subrange(104, 112) =~= be_bytes(amount2));
    lemma_be_bytes_injective(id1, id2);
    lemma_be_bytes_injective(amount1, amount2);
}

/// Different domains or different structure hashes give different signing messages.
pub proof fn lemma_signing_message_injective(d1: Seq<u8>, w1: Seq<u8>, d2: Seq<u8>, w2: Seq<u8>)
    requires
        d1.len() == 32,
        w1.len() == 32,
        d2.len() == 32,
        w2.len() == 32,
        signing_message(d1, w1) == signing_message(d2, w2),
    ensures
        d1 == d2,
        w1 == w2,
{
    let m1 = signing_message(d1, w1);
    let m2 = signing_message(d2, w2);
    assert(m1.subrange(2, 34) =~= d1);
    assert(m2.subrange(2, 34) =~= d2);
    assert(m1.subrange(34, 66) =~= w1);
    assert(m2.subrange(34, 66) =~= w2);
}

} // verus!
