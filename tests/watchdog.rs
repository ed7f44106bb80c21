use zinc::watchdog::{watchdog_disable, watchdog_enable, watchdog_feed, Wdc};

#[test]
fn disable_and_enable_toggle_bit_15() {
    let mut wdc = Wdc::new();
    wdc.mr.write(0x0000_0fff);
    watchdog_disable(&mut wdc);
    assert_eq!(wdc.mr.read(), 0x0000_8fff);
    watchdog_enable(&mut wdc);
    assert_eq!(wdc.mr.read(), 0x0000_0fff);
    assert_eq!(wdc.cr.read(), 0);
}

#[test]
fn feed_writes_key_and_restart() {
    let mut wdc = Wdc::new();
    wdc.cr.write(0x0000_ff00);
    wdc.mr.write(0x8000);
    watchdog_feed(&mut wdc);
    assert_eq!(wdc.cr.read(), 0xa500_0001);
    assert_eq!(wdc.mr.read(), 0x8000);
}
