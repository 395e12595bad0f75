use rbx::bitmap::{block_index, WithdrawalRecord, WITHDRAWALS_PER_ACCOUNT, WITHDRAWAL_BITMAP_SIZE};

#[test]
fn id_5000_and_id_1000_live_in_different_blocks() {
    assert_eq!(block_index(5000), 1);
    assert_eq!(block_index(1000), 0);
    assert_eq!(5000 % WITHDRAWALS_PER_ACCOUNT as u64, 1000);
    let mut block_one = WithdrawalRecord::new(block_index(5000));
    let block_zero = WithdrawalRecord::new(block_index(1000));
    block_one.mark_processed(5000);
    assert!(block_one.is_processed(5000));
    assert!(!block_zero.is_processed(1000));
    // bit 1000 is bit 0 of byte 125
    assert_eq!(block_one.processed_bits[125], 1);
    assert_eq!(block_one.index, 1);
}

#[test]
fn fresh_record_has_nothing_processed() {
    let record = WithdrawalRecord::new(3);
    assert_eq!(record.index, 3);
    assert_eq!(record.processed_bits.len(), WITHDRAWAL_BITMAP_SIZE);
    for id in 12000..16000u64 {
        assert!(!record.is_processed(id));
    }
}

#[test]
fn marking_sets_exactly_one_bit() {
    let mut record = WithdrawalRecord::new(0);
    record.mark_processed(13);
    assert_eq!(record.processed_bits[1], 1 << 5);
    let set: usize = record.processed_bits.iter().map(|b| b.count_ones() as usize).sum();
    assert_eq!(set, 1);
    assert!(record.is_processed(13));
    assert!(!record.is_processed(12));
    assert!(!record.is_processed(14));
}

#[test]
fn marking_twice_is_marking_once() {
    let mut record = WithdrawalRecord::new(0);
    record.mark_processed(3999);
    let once = record.processed_bits;
    record.mark_processed(3999);
    assert_eq!(record.processed_bits, once);
    assert_eq!(record.processed_bits[499], 0x80);
}

#[test]
fn ids_in_the_same_byte_stay_apart() {
    let mut record = WithdrawalRecord::new(0);
    record.mark_processed(8);
    record.mark_processed(15);
    assert!(record.is_processed(8));
    assert!(record.is_processed(15));
    for id in 9..15u64 {
        assert!(!record.is_processed(id));
    }
    assert_eq!(record.processed_bits[1], 0b1000_0001);
}

#[test]
fn largest_id() {
    assert_eq!(block_index(u64::MAX), 4_611_686_018_427_387);
    let mut record = WithdrawalRecord::new(block_index(u64::MAX));
    record.mark_processed(u64::MAX);
    assert!(record.is_processed(u64::MAX));
    // bit 3615 is bit 7 of byte 451
    assert_eq!(record.processed_bits[451], 0x80);
    assert!(!record.is_processed(u64::MAX - 1));
}
