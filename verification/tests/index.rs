use wireguard::protocol::index::IndexTable;

#[test]
fn new_table_is_empty() {
    let table = IndexTable::new();
    assert_eq!(table.lookup(0), None);
    assert_eq!(table.lookup(u32::MAX), None);
    assert!(!table.is_exhausted());
}

#[test]
fn indices_are_handed_out_in_order() {
    let mut table = IndexTable::new();
    assert_eq!(table.allocate(7), Some(0));
    assert_eq!(table.allocate(3), Some(1));
    assert_eq!(table.allocate(7), Some(2));
    assert_eq!(table.lookup(0), Some(7));
    assert_eq!(table.lookup(1), Some(3));
    assert_eq!(table.lookup(2), Some(7));
    assert_eq!(table.lookup(3), None);
    assert!(!table.is_exhausted());
}

#[test]
fn entries_stay() {
    let mut table = IndexTable::new();
    for peer in 0..500usize {
        let index = table.allocate(peer % 5).unwrap();
        assert_eq!(index as usize, peer);
    }
    for index in 0..500u32 {
        assert_eq!(table.lookup(index), Some(index as usize % 5));
    }
    assert_eq!(table.lookup(500), None);
}
