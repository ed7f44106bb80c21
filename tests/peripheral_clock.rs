use zinc::peripheral_clock::{Group, PeripheralClock};
use zinc::pmc::Pmc;

#[test]
fn group_info_for_every_index() {
    for i in 0u8..45 {
        let (g, bit) = PeripheralClock::new(i).group_info();
        if i < 32 {
            assert_eq!(g, Group::Group0);
            assert_eq!(bit, i);
        } else {
            assert_eq!(g, Group::Group1);
            assert_eq!(bit, i - 32);
        }
    }
}

#[test]
fn enable_writes_one_bit_of_its_group() {
    let mut pmc = Pmc::new();
    PeripheralClock::new(11).enable(&mut pmc);
    assert_eq!(pmc.pcer0.read(), 1 << 11);
    assert_eq!(pmc.pcer1.read(), 0);
    PeripheralClock::new(44).enable(&mut pmc);
    assert_eq!(pmc.pcer1.read(), 1 << 12);
    assert_eq!(pmc.pcer0.read(), 1 << 11);
}

#[test]
fn disable_writes_one_bit_of_its_group() {
    let mut pmc = Pmc::new();
    PeripheralClock::new(32).disable(&mut pmc);
    assert_eq!(pmc.pcdr1.read(), 1);
    assert_eq!(pmc.pcdr0.read(), 0);
}

#[test]
fn gates_are_isolated_and_order_free() {
    let mut a = Pmc::new();
    a.pcsr0.write(0xffff_0000);
    a.pcsr1.write(0x0000_00f0);
    PeripheralClock::new(3).enable(&mut a);
    a.reflect_clock_gates();
    PeripheralClock::new(20).disable(&mut a);
    a.reflect_clock_gates();
    PeripheralClock::new(36).enable(&mut a);
    a.reflect_clock_gates();
    assert_eq!(a.pcsr0.read(), 0xffef_0008);
    assert_eq!(a.pcsr1.read(), 0x0000_00f0);

    let mut b = Pmc::new();
    b.pcsr0.write(0xffff_0000);
    b.pcsr1.write(0x0000_00f0);
    PeripheralClock::new(36).enable(&mut b);
    b.reflect_clock_gates();
    PeripheralClock::new(20).disable(&mut b);
    b.reflect_clock_gates();
    PeripheralClock::new(3).enable(&mut b);
    b.reflect_clock_gates();
    assert_eq!(b.pcsr0.read(), a.pcsr0.read());
    assert_eq!(b.pcsr1.read(), a.pcsr1.read());
}

#[test]
fn enable_then_disable_twice() {
    let mut pmc = Pmc::new();
    for _ in 0..2 {
        PeripheralClock::new(7).enable(&mut pmc);
        pmc.reflect_clock_gates();
    }
    assert_eq!(pmc.pcsr0.read(), 1 << 7);
    for _ in 0..2 {
        PeripheralClock::new(7).disable(&mut pmc);
        pmc.reflect_clock_gates();
    }
    assert_eq!(pmc.pcsr0.read(), 0);
}
