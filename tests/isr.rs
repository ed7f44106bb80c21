use zinc::isr::{VectorTable, ISR_COUNT};

#[test]
fn table_has_thirty_slots_in_order() {
    let mut handlers = [None; ISR_COUNT];
    for (n, h) in handlers.iter_mut().enumerate() {
        *h = Some(0x1000 + 4 * n);
    }
    let table = VectorTable::new(handlers);
    assert_eq!(table.len(), 30);
    for n in 0..30 {
        assert_eq!(table.handler(n), Some(0x1000 + 4 * n));
    }
}
