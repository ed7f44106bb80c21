use zinc::pmc::Pmc;
use zinc::system_clock::{
    init_clock, master_clock_prescaler, master_clock_source, mck_freq, temp_boot, ClockSource, Eefc,
    MasterClockSource, Pll, Prescaler, RCFreq, Timeout,
};

const MOSCXTS: u32 = 1 << 0;
const LOCKA: u32 = 1 << 1;
const MCKRDY: u32 = 1 << 3;
const MOSCSELS: u32 = 1 << 16;
const MOSCRCS: u32 = 1 << 17;
const ALL_READY: u32 = MOSCXTS | LOCKA | MCKRDY | MOSCSELS | MOSCRCS;

fn ready_blocks() -> (Pmc, Eefc, Eefc) {
    let mut pmc = Pmc::new();
    pmc.sr.write(ALL_READY);
    let mut e0 = Eefc::new();
    let mut e1 = Eefc::new();
    e0.fsr.write(1);
    e1.fsr.write(1);
    (pmc, e0, e1)
}

#[test]
fn crystal_with_pll_doubles() {
    let (mut pmc, mut e0, mut e1) = ready_blocks();
    let r = init_clock(
        &mut pmc,
        &mut e0,
        &mut e1,
        ClockSource::Main(Some(12_000_000)),
        Some(Pll { mul: 1, div: 1, count: 0x3f }),
        10,
    );
    assert_eq!(r, Ok(24_000_000));
    assert_eq!(e0.fmr.read(), 1);
    assert_eq!(e1.fmr.read(), 1);
    assert_eq!(pmc.pllar.read(), (1 << 29) | (1 << 16) | (0x3f << 8) | 1);
    assert_eq!(pmc.mckr.read(), 2);
    assert_eq!(pmc.mor.read(), (1 << 24) | (0x37 << 16) | (8 << 8) | (1 << 3) | 1);
}

#[test]
fn internal_rc_at_8_mhz() {
    let (mut pmc, mut e0, mut e1) = ready_blocks();
    let r = init_clock(&mut pmc, &mut e0, &mut e1, ClockSource::InternalRC(RCFreq::MHz_8), None, 10);
    assert_eq!(r, Ok(8_000_000));
    assert_eq!(pmc.mckr.read(), 1);
    assert_eq!(pmc.mor.read(), (0x37 << 16) | (1 << 4) | (1 << 3));
    assert_eq!(pmc.pllar.read(), 0);
}

#[test]
fn flash_wait_states_at_84_mhz() {
    let (mut pmc, mut e0, mut e1) = ready_blocks();
    e0.fmr.write(0xffff_f000);
    let r = init_clock(
        &mut pmc,
        &mut e0,
        &mut e1,
        ClockSource::Main(Some(12_000_000)),
        Some(Pll { mul: 6, div: 1, count: 0x3f }),
        10,
    );
    assert_eq!(r, Ok(84_000_000));
    assert_eq!(e0.fmr.read() & 0xfff, 4);
    assert_eq!(e1.fmr.read() & 0xfff, 4);
    assert_eq!(e0.fmr.read(), 0xffff_f004);
}

#[test]
fn slow_clock_source() {
    let (mut pmc, mut e0, mut e1) = ready_blocks();
    let r = init_clock(&mut pmc, &mut e0, &mut e1, ClockSource::InternalSlow, None, 1);
    assert_eq!(r, Ok(32_768));
    assert_eq!(pmc.mor.read(), 0);
    assert_eq!(e0.fmr.read(), 0);
}

#[test]
fn measured_main_clock() {
    let (mut pmc, mut e0, mut e1) = ready_blocks();
    pmc.mcfr.write((1 << 16) | 5859);
    assert_eq!(mck_freq(&pmc, 5), Some(5859 * 2048));
    let r = init_clock(
        &mut pmc,
        &mut e0,
        &mut e1,
        ClockSource::Main(None),
        Some(Pll { mul: 3, div: 2, count: 1 }),
        5,
    );
    assert_eq!(r, Ok(5859 * 2048 / 2 * 4));
}

#[test]
fn measurement_not_ready() {
    let (mut pmc, mut e0, mut e1) = ready_blocks();
    pmc.mcfr.write(5859);
    assert_eq!(mck_freq(&pmc, 5), None);
    let r = init_clock(&mut pmc, &mut e0, &mut e1, ClockSource::Main(None), None, 5);
    assert_eq!(r, Err(Timeout::FrequencyMeasure));
}

#[test]
fn each_wait_can_time_out() {
    let src = ClockSource::Main(Some(12_000_000));
    let pll = Some(Pll { mul: 1, div: 1, count: 0x3f });
    let cases = [
        (ALL_READY, 1, 1, 0, Timeout::MainOscillator),
        (ALL_READY & !MOSCXTS, 1, 1, 3, Timeout::MainOscillator),
        (ALL_READY & !MOSCSELS, 1, 1, 3, Timeout::MainSelect),
        (ALL_READY & !MCKRDY, 1, 1, 3, Timeout::MasterClock),
        (ALL_READY, 0, 1, 3, Timeout::Flash),
        (ALL_READY, 1, 0, 3, Timeout::Flash),
        (ALL_READY & !LOCKA, 1, 1, 3, Timeout::PllLock),
    ];
    for (sr, f0, f1, polls, want) in cases {
        let mut pmc = Pmc::new();
        pmc.sr.write(sr);
        let mut e0 = Eefc::new();
        let mut e1 = Eefc::new();
        e0.fsr.write(f0);
        e1.fsr.write(f1);
        assert_eq!(init_clock(&mut pmc, &mut e0, &mut e1, src, pll, polls), Err(want));
    }
    let mut pmc = Pmc::new();
    pmc.sr.write(ALL_READY & !MOSCRCS);
    let mut e0 = Eefc::new();
    let mut e1 = Eefc::new();
    let r = init_clock(&mut pmc, &mut e0, &mut e1, ClockSource::InternalRC(RCFreq::MHz_4), None, 3);
    assert_eq!(r, Err(Timeout::RcOscillator));
}

#[test]
fn fixed_boot_sequence() {
    let (mut pmc, mut e0, mut e1) = ready_blocks();
    assert_eq!(temp_boot(&mut pmc, &mut e0, &mut e1, 4), Ok(()));
    assert_eq!(e0.fmr.read(), 4);
    assert_eq!(e1.fmr.read(), 4);
    assert_eq!(pmc.mor.read(), 0x0137_0809);
    assert_eq!(pmc.pllar.read(), 0x2003_3f01);
    assert_eq!(pmc.mckr.read(), 0x12);
}

#[test]
fn fixed_boot_sequence_times_out() {
    let (mut pmc, mut e0, mut e1) = ready_blocks();
    pmc.sr.write(ALL_READY & !LOCKA);
    assert_eq!(temp_boot(&mut pmc, &mut e0, &mut e1, 4), Err(Timeout::PllLock));
    let (mut pmc, mut e0, mut e1) = ready_blocks();
    pmc.mor.write(1 << 24);
    pmc.sr.write(ALL_READY & !MOSCXTS);
    assert_eq!(temp_boot(&mut pmc, &mut e0, &mut e1, 4), Ok(()));
}

#[test]
fn enumerated_fields_round_trip() {
    for v in 0..4 {
        assert_eq!(MasterClockSource::from_bits(v).bits(), v);
    }
    for v in 0..8 {
        assert_eq!(Prescaler::from_bits(v).bits(), v);
    }
    assert_eq!(MasterClockSource::from_bits(2), MasterClockSource::PLLA_CLK);
    assert_eq!(Prescaler::from_bits(7), Prescaler::CLK_3);
}

#[test]
fn decoded_master_clock_after_boot() {
    let (mut pmc, mut e0, mut e1) = ready_blocks();
    assert_eq!(master_clock_source(&pmc), MasterClockSource::SLOW_CLK);
    assert_eq!(temp_boot(&mut pmc, &mut e0, &mut e1, 1), Ok(()));
    assert_eq!(master_clock_source(&pmc), MasterClockSource::PLLA_CLK);
    assert_eq!(master_clock_prescaler(&pmc), Prescaler::CLK_2);
}

#[test]
fn nothing_is_switched_before_the_oscillator_is_ready() {
    let (mut pmc, mut e0, mut e1) = ready_blocks();
    pmc.mor.write(1 << 24);
    pmc.mckr.write(0x70);
    pmc.sr.write(ALL_READY & !MOSCRCS);
    let r = init_clock(&mut pmc, &mut e0, &mut e1, ClockSource::InternalRC(RCFreq::MHz_12), None, 3);
    assert_eq!(r, Err(Timeout::RcOscillator));
    assert_eq!(pmc.mor.read(), (1 << 24) | (0x37 << 16) | (2 << 4) | (1 << 3));
    assert_eq!(pmc.mckr.read(), 0x70);
    assert_eq!(e0.fmr.read(), 0);
}

#[test]
fn master_clock_stays_on_main_until_pll_lock() {
    let (mut pmc, mut e0, mut e1) = ready_blocks();
    pmc.sr.write(ALL_READY & !LOCKA);
    let r = init_clock(
        &mut pmc,
        &mut e0,
        &mut e1,
        ClockSource::Main(Some(12_000_000)),
        Some(Pll { mul: 6, div: 1, count: 0x3f }),
        3,
    );
    assert_eq!(r, Err(Timeout::PllLock));
    assert_eq!(pmc.mckr.read(), 1);
    assert_eq!(pmc.pllar.read(), (1 << 29) | (6 << 16) | (0x3f << 8) | 1);
    assert_eq!(e0.fmr.read(), 4);
    assert_eq!(e1.fmr.read(), 4);
}

#[test]
fn boot_leaves_master_clock_until_crystal_is_selected() {
    let (mut pmc, mut e0, mut e1) = ready_blocks();
    pmc.sr.write(ALL_READY & !MOSCSELS);
    assert_eq!(temp_boot(&mut pmc, &mut e0, &mut e1, 2), Err(Timeout::MainSelect));
    assert_eq!(pmc.mckr.read(), 0);
    assert_eq!(pmc.pllar.read(), 0);
    assert_eq!(pmc.mor.read(), 0x0137_0809);
}
