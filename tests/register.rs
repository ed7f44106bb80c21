use zinc::register::{Access, Field, Reg, Update};

#[test]
fn field_get_reads_the_range() {
    let r = Reg::new(0x0000_0ab0);
    assert_eq!(r.get(Field::range(4, 8, Access::ReadOnly)), 0xab);
    assert_eq!(r.get(Field::range(0, 4, Access::ReadWrite)), 0);
    assert!(r.get_bit(Field::bit(5, Access::ReadOnly)));
    assert!(!r.get_bit(Field::bit(6, Access::ReadOnly)));
}

#[test]
fn field_set_keeps_other_bits() {
    let mut r = Reg::new(0xffff_ffff);
    r.set(Field::range(8, 4, Access::ReadWrite), 0x5);
    assert_eq!(r.read(), 0xffff_f5ff);
    r.set(Field::range(8, 4, Access::ReadWrite), 0x1f);
    assert_eq!(r.read(), 0xffff_ffff);
    r.set_bit(Field::bit(31, Access::ReadWrite), false);
    assert_eq!(r.read(), 0x7fff_ffff);
}

#[test]
fn full_width_field() {
    let mut r = Reg::new(7);
    r.set(Field::range(0, 32, Access::ReadWrite), 0xdead_beef);
    assert_eq!(r.read(), 0xdead_beef);
    assert_eq!(r.get(Field::range(0, 32, Access::ReadOnly)), 0xdead_beef);
}

#[test]
fn trigger_does_not_keep_old_bits() {
    let mut r = Reg::new(0xffff_ffff);
    r.trigger(Field::bit(3, Access::WriteOnly), 1);
    assert_eq!(r.read(), 0x8);
}

#[test]
fn chained_update_is_one_write() {
    let mut r = Reg::new(0x1000_0000);
    let u = r
        .modify()
        .with(Field::range(0, 8, Access::ReadWrite), 0x12)
        .with(Field::range(16, 8, Access::ReadWrite), 0x34)
        .with_bit(Field::bit(31, Access::ReadWrite), true);
    assert_eq!(r.read(), 0x1000_0000);
    r.commit(u);
    assert_eq!(r.read(), 0x9034_0012);
    assert_eq!(Update::zero().value, 0);
}

#[test]
fn array_field_elements() {
    let base = Field::range(0, 4, Access::ReadWrite);
    let third = base.element(2);
    assert_eq!(third.lo, 8);
    assert_eq!(third.width, 4);
    let mut r = Reg::new(0);
    r.set(third, 0xc);
    assert_eq!(r.read(), 0xc00);
}

#[test]
fn wait_for_sees_a_set_flag() {
    let r = Reg::new(0x10);
    assert!(r.wait_for(Field::bit(4, Access::ReadOnly), 3));
    assert!(!r.wait_for(Field::bit(4, Access::ReadOnly), 0));
}

#[test]
fn wait_for_times_out_on_a_clear_flag() {
    let r = Reg::new(0x10);
    assert!(!r.wait_for(Field::bit(3, Access::ReadOnly), 1000));
}
