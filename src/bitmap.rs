use vstd::prelude::*;

verus! {

/// How many withdrawal ids one record covers.
pub const WITHDRAWALS_PER_ACCOUNT: usize = 4000;

/// Bytes in one record's bitmap: one bit for each id it covers.
pub const WITHDRAWAL_BITMAP_SIZE: usize = 500;

/// The block of ids that `id` falls in, and so the record that holds it.
pub open spec fn block_index_of(id: u64) -> u64 {
    id / (WITHDRAWALS_PER_ACCOUNT as u64)
}

/// The place of `id` within its block.
pub open spec fn bit_index_of(id: u64) -> int {
    (id % (WITHDRAWALS_PER_ACCOUNT as u64)) as int
}

/// Whether bit `i` of a bitmap is set: bit `i % 8` of byte `i / 8`.
pub open spec fn bit_is_set(bits: Seq<u8>, i: int) -> bool {
    bits[i / 8] & (1u8 << ((i % 8) as u8)) != 0
}

/// Whether a bitmap records `id` as redeemed.
pub open spec fn processed_in(bits: Seq<u8>, id: u64) -> bool {
    bit_is_set(bits, bit_index_of(id))
}

/// A bitmap with the bit of `id` set: byte `i / 8` gains bit `i % 8`, where `i` is the
/// place of `id` in its block; every other byte is kept.
pub open spec fn marked_bits(bits: Seq<u8>, id: u64) -> Seq<u8> {
    let i = bit_index_of(id);
    bits.update(i / 8, bits[i / 8] | (1u8 << ((i % 8) as u8)))
}

/// The ids of one block of ids that have been redeemed, as a bitmap. Once set, a bit is never
/// cleared.
pub struct WithdrawalRecord {
    pub index: u64,
    pub processed_bits: [u8; WITHDRAWAL_BITMAP_SIZE],
}

/// Setting bit `p` of a byte leaves every other bit as it was.
proof fn lemma_set_bit(b: u8, p: u8, q: u8)
    requires
        p < 8,
        q < 8,
    ensures
        ((b | (1u8 << p)) & (1u8 << q) != 0) == (p == q || b & (1u8 << q) != 0),
{
    assert(((b | (1u8 << p)) & (1u8 << q) != 0) == (p == q || b & (1u8 << q) != 0))
        by (bit_vector)
        requires
            p < 8,
            q < 8,
    ;
}

/// The block index of an id.
pub fn block_index(id: u64) -> (r: u64)
    ensures
        r == block_index_of(id),
{
    id / (WITHDRAWALS_PER_ACCOUNT as u64)
}

impl WithdrawalRecord {
    /// A record for block `index` in which no id has been redeemed.
    pub fn new(index: u64) -> (r: WithdrawalRecord)
        ensures
            r.index == index,
            forall|i: int| 0 <= i < WITHDRAWALS_PER_ACCOUNT ==> !bit_is_set(r.processed_bits@, i),
    {
        let r = WithdrawalRecord { index, processed_bits: [0u8; WITHDRAWAL_BITMAP_SIZE] };
        assert forall|i: int| 0 <= i < WITHDRAWALS_PER_ACCOUNT implies !bit_is_set(
            r.processed_bits@,
            i,
        ) by {
            let q = (i % 8) as u8;
            assert(r.processed_bits@[i / 8] == 0u8);
            assert(0u8 & (1u8 << q) == 0) by (bit_vector);
        }
        r
    }

    /// Whether `id` has been redeemed, read from its bit in this record.
    pub fn is_processed(&self, id: u64) -> (r: bool)
        ensures
            r == processed_in(self.processed_bits@, id),
    {
        let bit_index = (id % (WITHDRAWALS_PER_ACCOUNT as u64)) as usize;
        let byte_index = bit_index / 8;
        let bit_position = (bit_index % 8) as u8;
        (self.processed_bits[byte_index] & (1u8 << bit_position)) != 0
    }

    /// Records `id` as redeemed. Every other bit keeps its value, so marking twice is the
    /// same as marking once.
    pub fn mark_processed(&mut self, id: u64)
        ensures
            final(self).index == old(self).index,
            final(self).processed_bits@ == marked_bits(old(self).processed_bits@, id),
            processed_in(final(self).processed_bits@, id),
            forall|i: int|
                0 <= i < WITHDRAWALS_PER_ACCOUNT ==> #[trigger] bit_is_set(
                    final(self).processed_bits@,
                    i,
                ) == (i == bit_index_of(id) || bit_is_set(old(self).processed_bits@, i)),
    {
        let bit_index = (id % (WITHDRAWALS_PER_ACCOUNT as u64)) as usize;
        let byte_index = bit_index / 8;
        let bit_position = (bit_index % 8) as u8;
        let old_bits = Ghost(self.processed_bits@);
        self.processed_bits[byte_index] = self.processed_bits[byte_index] | (1u8 << bit_position);
        proof {
            let new_bits = self.processed_bits@;
            assert forall|i: int| 0 <= i < WITHDRAWALS_PER_ACCOUNT implies #[trigger] bit_is_set(
                new_bits,
                i,
            ) == (i == bit_index_of(id) || bit_is_set(old_bits@, i)) by {
                if i / 8 == byte_index as int {
                    lemma_set_bit(old_bits@[i / 8], bit_position, (i % 8) as u8);
                }
            }
            lemma_set_bit(old_bits@[byte_index as int], bit_position, bit_position);
        }
    }
}

} // verus!
