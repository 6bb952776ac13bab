use prediction_market::settlement::SettlementEntry;
use prediction_market::settlement::SettlementInfo;
use prediction_market::settlement::ENTRY_BYTES;

#[test]
fn size_counts_entries_and_flush_empties() {
    let mut q = SettlementInfo::new();
    assert_eq!(q.settlement_size(), 0);
    q.append_settlement(SettlementEntry::new(&[1, 2, 3]));
    q.append_settlement(SettlementEntry::new(&[4, 5, 6]));
    q.append_settlement(SettlementEntry::new(&[7, 8, 9]));
    let size = q.settlement_size();
    assert_eq!(size, 3);
    let bytes = q.flush_settlement();
    assert_eq!(bytes.len() / ENTRY_BYTES, size);
    assert_eq!(bytes.len() % ENTRY_BYTES, 0);
    assert_eq!(q.settlement_size(), 0);
    assert!(q.flush_settlement().is_empty());
}

#[test]
fn flush_of_empty_queue_is_empty() {
    let mut q = SettlementInfo::new();
    assert!(q.flush_settlement().is_empty());
    assert_eq!(q.settlement_size(), 0);
}

#[test]
fn entries_are_encoded_in_order_least_significant_byte_first() {
    let mut q = SettlementInfo::new();
    q.append_settlement(SettlementEntry::new(&[0x0102_0304_0506_0708, 0, u64::MAX]));
    q.append_settlement(SettlementEntry::new(&[1, 2, 3]));
    let bytes = q.flush_settlement();
    let mut expected: Vec<u8> = vec![8, 7, 6, 5, 4, 3, 2, 1];
    expected.extend_from_slice(&[0; 8]);
    expected.extend_from_slice(&[0xff; 8]);
    expected.extend_from_slice(&[1, 0, 0, 0, 0, 0, 0, 0]);
    expected.extend_from_slice(&[2, 0, 0, 0, 0, 0, 0, 0]);
    expected.extend_from_slice(&[3, 0, 0, 0, 0, 0, 0, 0]);
    assert_eq!(bytes, expected);
}

#[test]
fn entry_flush_appends_to_what_is_there() {
    let e = SettlementEntry::new(&[1, 2, 3]);
    assert_eq!(e.words, [1, 2, 3]);
    let mut bytes = vec![0xaa];
    e.flush(&mut bytes);
    assert_eq!(bytes.len(), 1 + ENTRY_BYTES);
    assert_eq!(bytes[0], 0xaa);
    assert_eq!(bytes[1], 1);
    assert_eq!(bytes[9], 2);
    assert_eq!(bytes[17], 3);
}

#[test]
fn entries_queued_after_a_flush_come_out_alone() {
    let mut q = SettlementInfo::new();
    q.append_settlement(SettlementEntry::new(&[1, 1, 1]));
    let _ = q.flush_settlement();
    q.append_settlement(SettlementEntry::new(&[2, 2, 2]));
    let bytes = q.flush_settlement();
    assert_eq!(bytes.len(), ENTRY_BYTES);
    assert_eq!(bytes[0], 2);
}
