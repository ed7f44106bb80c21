//! System clock sequencer: oscillator selection, frequency measurement,
//! flash wait states, PLL A and the master clock switch, each step waiting
//! for its ready flag with a bounded poll.

use vstd::prelude::*;
use crate::pmc::Pmc;
use crate::register::{
    ascending, bit_set, field_value, lemma_ascending_disjoint, pairwise_disjoint, with_field, Access,
    Field, Reg,
};

verus! {

/// Frequencies of the internal RC oscillator.
#[allow(non_camel_case_types)]
#[derive(Clone, Copy, PartialEq, Eq, Structural, Debug)]
pub enum RCFreq {
    MHz_4,
    MHz_8,
    MHz_12,
}

/// Where the master clock comes from.
#[derive(Clone, Copy, PartialEq, Eq, Structural, Debug)]
pub enum ClockSource {
    /// The 32 kHz slow clock.
    InternalSlow,
    /// The internal RC oscillator at the given frequency.
    InternalRC(RCFreq),
    /// The crystal oscillator; its frequency in Hz when known, else it is
    /// measured by the frequency counter.
    Main(Option<u32>),
}

/// PLL A settings: output = (input / div) * (mul + 1).
#[derive(Clone, Copy, PartialEq, Eq, Structural, Debug)]
pub struct Pll {
    pub mul: u32,
    pub div: u32,
    pub count: u32,
}

/// A ready flag that did not come up within the allowed number of polls.
#[derive(Clone, Copy, PartialEq, Eq, Structural, Debug)]
pub enum Timeout {
    /// Internal RC oscillator stabilisation.
    RcOscillator,
    /// Crystal oscillator start-up.
    MainOscillator,
    /// Main clock selection.
    MainSelect,
    /// Master clock ready.
    MasterClock,
    /// Main clock frequency measurement.
    FrequencyMeasure,
    /// Flash controllers ready.
    Flash,
    /// PLL A lock.
    PllLock,
}

/// Frequency of the slow clock in Hz.
pub const SLOW_CLOCK_FREQ: u32 = 32_768;
/// Hz per counted main clock cycle of the frequency counter (16 slow clock
/// periods).
pub const MAINF_SCALE: u32 = 32_768 / 16;
/// Highest frequency at which flash runs without an extra wait state.
pub const FLASH_MAX_FREQ: u32 = 20_000_000;
/// Password that the main oscillator register demands with every write.
pub const MOR_KEY: u32 = 0x37;
/// Crystal oscillator start-up time, in units of eight slow clock cycles.
pub const MAIN_OSC_STARTUP: u32 = 0x8;

// Main oscillator register fields.
pub const MOR_MOSCXTEN: u32 = 0;
pub const MOR_MOSCXTBY: u32 = 1;
pub const MOR_MOSCRCEN: u32 = 3;
pub const MOR_MOSCRCF: u32 = 4;
pub const MOR_MOSCXTST: u32 = 8;
pub const MOR_KEY_LO: u32 = 16;
pub const MOR_MOSCSEL: u32 = 24;
pub const MOR_CFDEN: u32 = 25;
// Main clock frequency register fields.
pub const MCFR_MAINF_WIDTH: u32 = 16;
pub const MCFR_MAINFRDY: u32 = 16;
// PLL A register fields.
pub const PLLAR_DIVA: u32 = 0;
pub const PLLAR_PLLACOUNT: u32 = 8;
pub const PLLAR_MULA: u32 = 16;
pub const PLLAR_ONE: u32 = 29;
// Master clock register fields and their values.
pub const MCKR_CSS: u32 = 0;
pub const MCKR_PRES: u32 = 4;
pub const MCKR_PLLADIV2: u32 = 12;
pub const MCKR_UPLLDIV2: u32 = 13;
// Status register flags.
pub const SR_MOSCXTS: u32 = 0;
pub const SR_LOCKA: u32 = 1;
pub const SR_MCKRDY: u32 = 3;
pub const SR_MOSCSELS: u32 = 16;
pub const SR_MOSCRCS: u32 = 17;
// Flash controller fields.
pub const FMR_FWS_WIDTH: u32 = 12;
pub const FSR_FREADY: u32 = 0;

/// One embedded flash controller's register block.
pub struct Eefc {
    /// Flash mode register; wait states in bits 0..11.
    pub fmr: Reg,
    /// Flash status register (read-only); ready in bit 0.
    pub fsr: Reg,
}

impl Eefc {
    /// A block with both registers clear.
    pub fn new() -> (r: Eefc)
        ensures
            r.fmr@ == 0,
            r.fsr@ == 0,
    {
        Eefc { fmr: Reg::new(0), fsr: Reg::new(0) }
    }
}

pub open spec fn rc_code(f: RCFreq) -> u32 {
    match f {
        RCFreq::MHz_4 => 0,
        RCFreq::MHz_8 => 1,
        RCFreq::MHz_12 => 2,
    }
}

pub open spec fn rc_freq(f: RCFreq) -> u32 {
    match f {
        RCFreq::MHz_4 => 4_000_000,
        RCFreq::MHz_8 => 8_000_000,
        RCFreq::MHz_12 => 12_000_000,
    }
}

/// Master clock source selection for a source before any PLL.
pub open spec fn css_of(s: ClockSource) -> u32 {
    match s {
        ClockSource::InternalSlow => css_bits(MasterClockSource::SLOW_CLK),
        _ => css_bits(MasterClockSource::MAIN_CLK),
    }
}

/// Main clock frequency from the frequency counter's cycle count.
pub open spec fn measured_freq(mcfr: u32) -> int {
    field_value(mcfr, 0, MCFR_MAINF_WIDTH) * MAINF_SCALE
}

/// Frequency of the source before the PLL.
pub open spec fn source_freq(s: ClockSource, mcfr: u32) -> int {
    match s {
        ClockSource::InternalSlow => SLOW_CLOCK_FREQ as int,
        ClockSource::InternalRC(f) => rc_freq(f) as int,
        ClockSource::Main(Some(f)) => f as int,
        ClockSource::Main(None) => measured_freq(mcfr),
    }
}

/// Frequency out of PLL A for an input of `f` Hz.
pub open spec fn pll_freq(p: Pll, f: int) -> int {
    (f / p.div as int) * (p.mul + 1)
}

/// Master clock frequency after bring-up.
pub open spec fn final_freq(s: ClockSource, pll: Option<Pll>, mcfr: u32) -> int {
    match pll {
        Some(p) => pll_freq(p, source_freq(s, mcfr)),
        None => source_freq(s, mcfr),
    }
}

/// Flash wait states for a master clock of `freq` Hz.
pub open spec fn wait_states(freq: int) -> int {
    freq / FLASH_MAX_FREQ as int
}

/// The arithmetic of the PLL is defined and fits in 32 bits.
pub open spec fn pll_fits(pll: Option<Pll>, f: int) -> bool {
    match pll {
        Some(p) => p.div > 0 && p.mul < u32::MAX && pll_freq(p, f) <= u32::MAX,
        None => true,
    }
}

pub open spec fn mor_rc_enabled(mor: u32, f: RCFreq) -> u32 {
    with_field(
        with_field(with_field(mor, MOR_MOSCRCEN, 1, 1), MOR_MOSCRCF, 3, rc_code(f)),
        MOR_KEY_LO,
        8,
        MOR_KEY,
    )
}

pub open spec fn mor_rc_selected(mor: u32) -> u32 {
    with_field(with_field(mor, MOR_MOSCSEL, 1, 0), MOR_KEY_LO, 8, MOR_KEY)
}

pub open spec fn mor_xtal_enabled(mor: u32, start_time: u32) -> u32 {
    with_field(
        with_field(
            with_field(with_field(mor, MOR_MOSCXTEN, 1, 1), MOR_MOSCRCEN, 1, 1),
            MOR_MOSCXTST,
            8,
            start_time,
        ),
        MOR_KEY_LO,
        8,
        MOR_KEY,
    )
}

pub open spec fn mor_xtal_selected(mor: u32) -> u32 {
    with_field(with_field(mor, MOR_MOSCSEL, 1, 1), MOR_KEY_LO, 8, MOR_KEY)
}

/// Main oscillator register once the source is selected.
pub open spec fn mor_after_source(s: ClockSource, mor: u32) -> u32 {
    match s {
        ClockSource::InternalSlow => mor,
        ClockSource::InternalRC(f) => mor_rc_selected(mor_rc_enabled(mor, f)),
        ClockSource::Main(_) => mor_xtal_selected(mor_xtal_enabled(mor, MAIN_OSC_STARTUP)),
    }
}

/// PLL A register programmed for `p`, in one write.
pub open spec fn pllar_for(pllar: u32, p: Pll) -> u32 {
    with_field(
        with_field(
            with_field(with_field(pllar, PLLAR_ONE, 1, 1), PLLAR_MULA, 11, p.mul),
            PLLAR_DIVA,
            8,
            p.div,
        ),
        PLLAR_PLLACOUNT,
        6,
        p.count,
    )
}

/// Master clock register after the PLL switch: no prescaler, then PLL A.
pub open spec fn mckr_to_pll(mckr: u32, pres: u32) -> u32 {
    with_field(with_field(mckr, MCKR_PRES, 3, pres), MCKR_CSS, 2, css_bits(MasterClockSource::PLLA_CLK))
}

/// Master clock register after bring-up.
pub open spec fn mckr_after(s: ClockSource, pll: Option<Pll>, mckr: u32) -> u32 {
    let m = with_field(mckr, MCKR_CSS, 2, css_of(s));
    match pll {
        Some(_) => mckr_to_pll(m, pres_bits(Prescaler::CLK)),
        None => m,
    }
}

/// Main oscillator register after the first write of a source's start-up.
pub open spec fn mor_source_enabled(s: ClockSource, mor: u32) -> u32 {
    match s {
        ClockSource::InternalSlow => mor,
        ClockSource::InternalRC(f) => mor_rc_enabled(mor, f),
        ClockSource::Main(_) => mor_xtal_enabled(mor, MAIN_OSC_STARTUP),
    }
}

/// Main oscillator register after selecting source `s` ended with `r`: the
/// main clock selection is written only once the oscillator was ready.
pub open spec fn source_step_mor(s: ClockSource, r: Result<(), Timeout>, mor: u32) -> u32 {
    if r == Err::<(), Timeout>(Timeout::RcOscillator) || r == Err::<(), Timeout>(Timeout::MainOscillator) {
        mor_source_enabled(s, mor)
    } else {
        mor_after_source(s, mor)
    }
}

/// Master clock register after selecting source `s` ended with `r`: the
/// master clock is switched only once the main clock selection is done.
pub open spec fn source_step_mckr(s: ClockSource, r: Result<(), Timeout>, mckr: u32) -> u32 {
    if r is Ok || r == Err::<(), Timeout>(Timeout::MasterClock) {
        with_field(mckr, MCKR_CSS, 2, css_of(s))
    } else {
        mckr
    }
}

/// The first ready flag that each source waits for.
pub open spec fn first_wait(s: ClockSource) -> Timeout {
    match s {
        ClockSource::InternalSlow => Timeout::MasterClock,
        ClockSource::InternalRC(_) => Timeout::RcOscillator,
        ClockSource::Main(_) => Timeout::MainOscillator,
    }
}

/// Outcome of selecting a source, from the status register.
pub open spec fn source_outcome(s: ClockSource, sr: u32, polls: u32) -> Result<(), Timeout> {
    if polls == 0 {
        Err(first_wait(s))
    } else {
        match s {
            ClockSource::InternalRC(_) if !bit_set(sr, SR_MOSCRCS) => Err(Timeout::RcOscillator),
            ClockSource::Main(_) if !bit_set(sr, SR_MOSCXTS) => Err(Timeout::MainOscillator),
            ClockSource::InternalSlow => if bit_set(sr, SR_MCKRDY) {
                Ok(())
            } else {
                Err(Timeout::MasterClock)
            },
            _ => if !bit_set(sr, SR_MOSCSELS) {
                Err(Timeout::MainSelect)
            } else if !bit_set(sr, SR_MCKRDY) {
                Err(Timeout::MasterClock)
            } else {
                Ok(())
            },
        }
    }
}

/// Outcome of the whole bring-up, from the status registers that it polls.
pub open spec fn init_outcome(
    s: ClockSource,
    pll: Option<Pll>,
    sr: u32,
    mcfr: u32,
    fsr0: u32,
    fsr1: u32,
    polls: u32,
) -> Result<u32, Timeout> {
    if source_outcome(s, sr, polls) is Err {
        Err(source_outcome(s, sr, polls)->Err_0)
    } else if s == ClockSource::Main(None) && !bit_set(mcfr, MCFR_MAINFRDY) {
        Err(Timeout::FrequencyMeasure)
    } else if !bit_set(fsr0, FSR_FREADY) || !bit_set(fsr1, FSR_FREADY) {
        Err(Timeout::Flash)
    } else if pll is Some && !bit_set(sr, SR_LOCKA) {
        Err(Timeout::PllLock)
    } else {
        Ok(final_freq(s, pll, mcfr) as u32)
    }
}

fn rw_bit(lo: u32) -> (r: Field)
    requires
        lo < 32,
    ensures
        r == (Field { lo, width: 1, access: Access::ReadWrite }),
        r.wf(),
{
    Field::bit(lo, Access::ReadWrite)
}

fn rw_range(lo: u32, width: u32) -> (r: Field)
    requires
        1 <= width,
        lo + width <= 32,
    ensures
        r == (Field { lo, width, access: Access::ReadWrite }),
        r.wf(),
{
    Field::range(lo, width, Access::ReadWrite)
}

fn ro_bit(lo: u32) -> (r: Field)
    requires
        lo < 32,
    ensures
        r == (Field { lo, width: 1, access: Access::ReadOnly }),
        r.wf(),
{
    Field::bit(lo, Access::ReadOnly)
}

fn rc_field_code(freq: RCFreq) -> (r: u32)
    ensures
        r == rc_code(freq),
{
    match freq {
        RCFreq::MHz_4 => 0,
        RCFreq::MHz_8 => 1,
        RCFreq::MHz_12 => 2,
    }
}

/// Enables the internal RC oscillator at `freq`, waits until it is stable,
/// then selects it as main clock and waits for the selection.
fn init_rc_oscillator(mor: &mut Reg, sr: &Reg, freq: RCFreq, polls: u32) -> (r: Result<(), Timeout>)
    ensures
        r == (if polls == 0 || !bit_set(sr@, SR_MOSCRCS) {
            Err(Timeout::RcOscillator)
        } else if !bit_set(sr@, SR_MOSCSELS) {
            Err(Timeout::MainSelect)
        } else {
            Ok(())
        }),
        r == Err::<(), Timeout>(Timeout::RcOscillator) ==> final(mor)@ == mor_rc_enabled(old(mor)@, freq),
        r != Err::<(), Timeout>(Timeout::RcOscillator) ==> final(mor)@ == mor_rc_selected(
            mor_rc_enabled(old(mor)@, freq),
        ),
{
    let u = mor.modify().with(rw_bit(MOR_MOSCRCEN), 1).with(rw_range(MOR_MOSCRCF, 3), rc_field_code(freq)).with(
        rw_range(MOR_KEY_LO, 8),
        MOR_KEY,
    );
    mor.commit(u);
    if !sr.wait_for(ro_bit(SR_MOSCRCS), polls) {
        return Err(Timeout::RcOscillator);
    }
    let u = mor.modify().with(rw_bit(MOR_MOSCSEL), 0).with(rw_range(MOR_KEY_LO, 8), MOR_KEY);
    mor.commit(u);
    if !sr.wait_for(ro_bit(SR_MOSCSELS), polls) {
        return Err(Timeout::MainSelect);
    }
    Ok(())
}

/// Enables the crystal oscillator with the given start-up time, waits until
/// it is stable, then selects it as main clock and waits for the selection.
fn init_main_oscillator(mor: &mut Reg, sr: &Reg, start_time: u32, polls: u32) -> (r: Result<(), Timeout>)
    ensures
        r == (if polls == 0 || !bit_set(sr@, SR_MOSCXTS) {
            Err(Timeout::MainOscillator)
        } else if !bit_set(sr@, SR_MOSCSELS) {
            Err(Timeout::MainSelect)
        } else {
            Ok(())
        }),
        r == Err::<(), Timeout>(Timeout::MainOscillator) ==> final(mor)@ == mor_xtal_enabled(old(mor)@, start_time),
        r != Err::<(), Timeout>(Timeout::MainOscillator) ==> final(mor)@ == mor_xtal_selected(
            mor_xtal_enabled(old(mor)@, start_time),
        ),
{
    let u = mor.modify().with(rw_bit(MOR_MOSCXTEN), 1).with(rw_bit(MOR_MOSCRCEN), 1).with(
        rw_range(MOR_MOSCXTST, 8),
        start_time,
    ).with(rw_range(MOR_KEY_LO, 8), MOR_KEY);
    mor.commit(u);
    if !sr.wait_for(ro_bit(SR_MOSCXTS), polls) {
        return Err(Timeout::MainOscillator);
    }
    let u = mor.modify().with(rw_bit(MOR_MOSCSEL), 1).with(rw_range(MOR_KEY_LO, 8), MOR_KEY);
    mor.commit(u);
    if !sr.wait_for(ro_bit(SR_MOSCSELS), polls) {
        return Err(Timeout::MainSelect);
    }
    Ok(())
}

impl ClockSource {
    /// Starts the source and switches the master clock to it.
    fn init(&self, mor: &mut Reg, mckr: &mut Reg, sr: &Reg, polls: u32) -> (r: Result<(), Timeout>)
        ensures
            r == source_outcome(*self, sr@, polls),
            final(mor)@ == source_step_mor(*self, r, old(mor)@),
            final(mckr)@ == source_step_mckr(*self, r, old(mckr)@),
    {
        let css = match self {
            ClockSource::InternalSlow => MasterClockSource::SLOW_CLK.bits(),
            ClockSource::InternalRC(freq) => {
                match init_rc_oscillator(mor, sr, *freq, polls) {
                    Err(e) => return Err(e),
                    Ok(()) => {},
                }
                MasterClockSource::MAIN_CLK.bits()
            },
            ClockSource::Main(_) => {
                match init_main_oscillator(mor, sr, MAIN_OSC_STARTUP, polls) {
                    Err(e) => return Err(e),
                    Ok(()) => {},
                }
                MasterClockSource::MAIN_CLK.bits()
            },
        };
        mckr.set(rw_range(MCKR_CSS, 2), css);
        if !sr.wait_for(ro_bit(SR_MCKRDY), polls) {
            return Err(Timeout::MasterClock);
        }
        Ok(())
    }

    /// Frequency of the source in Hz; `None` when the main clock had to be
    /// measured and the measurement was not ready.
    pub fn freq(&self, pmc: &Pmc, polls: u32) -> (r: Option<u32>)
        ensures
            *self == ClockSource::Main(None) ==> r == mck_freq_outcome(pmc.mcfr@, polls),
            *self != ClockSource::Main(None) ==> r == Some(source_freq(*self, pmc.mcfr@) as u32),
            r matches Some(f) ==> f == source_freq(*self, pmc.mcfr@),
    {
        match self {
            ClockSource::InternalSlow => Some(SLOW_CLOCK_FREQ),
            ClockSource::InternalRC(RCFreq::MHz_4) => Some(4_000_000),
            ClockSource::InternalRC(RCFreq::MHz_8) => Some(8_000_000),
            ClockSource::InternalRC(RCFreq::MHz_12) => Some(12_000_000),
            ClockSource::Main(Some(f)) => Some(*f),
            ClockSource::Main(None) => mck_freq(pmc, polls),
        }
    }
}

/// What reading the measured main clock frequency gives.
pub open spec fn mck_freq_outcome(mcfr: u32, polls: u32) -> Option<u32> {
    if polls > 0 && bit_set(mcfr, MCFR_MAINFRDY) {
        Some(measured_freq(mcfr) as u32)
    } else {
        None
    }
}

/// Reads the main clock frequency measured by the frequency counter, once
/// the measurement is ready.
pub fn mck_freq(pmc: &Pmc, polls: u32) -> (r: Option<u32>)
    ensures
        r == mck_freq_outcome(pmc.mcfr@, polls),
        r matches Some(f) ==> f == measured_freq(pmc.mcfr@),
{
    if !pmc.mcfr.wait_for(ro_bit(MCFR_MAINFRDY), polls) {
        return None;
    }
    let cycles = pmc.mcfr.get(Field::range(0, MCFR_MAINF_WIDTH, Access::ReadOnly));
    let ghost v = pmc.mcfr@;
    assert(cycles <= 0xffff) by (bit_vector)
        requires
            cycles == field_value(v, 0, 16),
    ;
    Some(cycles * MAINF_SCALE)
}

impl Pll {
    /// Programs multiplier, divider and lock count in one write, waits for
    /// lock, removes the prescaler and switches the master clock to PLL A.
    fn init(&self, pllar: &mut Reg, mckr: &mut Reg, sr: &Reg, polls: u32) -> (r: Result<(), Timeout>)
        ensures
            r == (if polls == 0 || !bit_set(sr@, SR_LOCKA) {
                Err(Timeout::PllLock)
            } else if !bit_set(sr@, SR_MCKRDY) {
                Err(Timeout::MasterClock)
            } else {
                Ok(())
            }),
            final(pllar)@ == pllar_for(old(pllar)@, *self),
            r is Ok ==> final(mckr)@ == mckr_to_pll(old(mckr)@, pres_bits(Prescaler::CLK)),
            r == Err::<(), Timeout>(Timeout::PllLock) ==> final(mckr)@ == old(mckr)@,
            r == Err::<(), Timeout>(Timeout::MasterClock) ==> final(mckr)@ == with_field(
                old(mckr)@,
                MCKR_PRES,
                3,
                pres_bits(Prescaler::CLK),
            ),
    {
        let u = pllar.modify().with(rw_bit(PLLAR_ONE), 1).with(rw_range(PLLAR_MULA, 11), self.mul).with(
            rw_range(PLLAR_DIVA, 8),
            self.div,
        ).with(rw_range(PLLAR_PLLACOUNT, 6), self.count);
        pllar.commit(u);
        if !sr.wait_for(ro_bit(SR_LOCKA), polls) {
            return Err(Timeout::PllLock);
        }
        mckr.set(rw_range(MCKR_PRES, 3), Prescaler::CLK.bits());
        if !sr.wait_for(ro_bit(SR_MCKRDY), polls) {
            return Err(Timeout::MasterClock);
        }
        mckr.set(rw_range(MCKR_CSS, 2), MasterClockSource::PLLA_CLK.bits());
        if !sr.wait_for(ro_bit(SR_MCKRDY), polls) {
            return Err(Timeout::MasterClock);
        }
        Ok(())
    }

    /// Output frequency for an input of `freq` Hz.
    fn apply_freq(&self, freq: u32) -> (r: u32)
        requires
            pll_fits(Some(*self), freq as int),
        ensures
            r == pll_freq(*self, freq as int),
    {
        (freq / self.div) * (self.mul + 1)
    }
}

/// Writes the wait states for `clk_freq` to both flash controllers, then
/// waits until both are ready.
fn init_flash(eefc0: &mut Eefc, eefc1: &mut Eefc, clk_freq: u32, polls: u32) -> (r: Result<(), Timeout>)
    ensures
        final(eefc0).fmr@ == with_field(old(eefc0).fmr@, 0, FMR_FWS_WIDTH, (clk_freq / FLASH_MAX_FREQ) as u32),
        final(eefc1).fmr@ == with_field(old(eefc1).fmr@, 0, FMR_FWS_WIDTH, (clk_freq / FLASH_MAX_FREQ) as u32),
        final(eefc0).fsr@ == old(eefc0).fsr@,
        final(eefc1).fsr@ == old(eefc1).fsr@,
        r == (if polls > 0 && bit_set(old(eefc0).fsr@, FSR_FREADY) && bit_set(old(eefc1).fsr@, FSR_FREADY) {
            Ok(())
        } else {
            Err(Timeout::Flash)
        }),
{
    let cycles: u32 = clk_freq / FLASH_MAX_FREQ;
    eefc0.fmr.set(rw_range(0, FMR_FWS_WIDTH), cycles);
    eefc1.fmr.set(rw_range(0, FMR_FWS_WIDTH), cycles);
    if !eefc0.fsr.wait_for(ro_bit(FSR_FREADY), polls) {
        return Err(Timeout::Flash);
    }
    if !eefc1.fsr.wait_for(ro_bit(FSR_FREADY), polls) {
        return Err(Timeout::Flash);
    }
    Ok(())
}

/// Brings up the master clock from `source`, through PLL A when `pll` is
/// given, with flash wait states set for the final frequency. Each ready
/// flag is polled at most `max_polls` times. Returns the master clock
/// frequency in Hz.
pub fn init_clock(
    pmc: &mut Pmc,
    eefc0: &mut Eefc,
    eefc1: &mut Eefc,
    source: ClockSource,
    pll: Option<Pll>,
    max_polls: u32,
) -> (r: Result<u32, Timeout>)
    requires
        pll_fits(pll, source_freq(source, old(pmc).mcfr@)),
    ensures
        r == init_outcome(
            source,
            pll,
            old(pmc).sr@,
            old(pmc).mcfr@,
            old(eefc0).fsr@,
            old(eefc1).fsr@,
            max_polls,
        ),
        final(pmc).sr@ == old(pmc).sr@ && final(pmc).mcfr@ == old(pmc).mcfr@,
        final(pmc).same_clock_gates(*old(pmc)),
        final(eefc0).fsr@ == old(eefc0).fsr@ && final(eefc1).fsr@ == old(eefc1).fsr@,
        r is Ok ==> final(pmc).mor@ == mor_after_source(source, old(pmc).mor@),
        r is Ok ==> final(pmc).mckr@ == mckr_after(source, pll, old(pmc).mckr@),
        source_outcome(source, old(pmc).sr@, max_polls) is Err ==> {
            &&& final(pmc).mor@ == source_step_mor(source, source_outcome(source, old(pmc).sr@, max_polls), old(pmc).mor@)
            &&& final(pmc).mckr@ == source_step_mckr(source, source_outcome(source, old(pmc).sr@, max_polls), old(pmc).mckr@)
            &&& final(pmc).pllar@ == old(pmc).pllar@
            &&& final(eefc0).fmr@ == old(eefc0).fmr@
            &&& final(eefc1).fmr@ == old(eefc1).fmr@
        },
        r == Err::<u32, Timeout>(Timeout::FrequencyMeasure) ==> {
            &&& final(pmc).mor@ == mor_after_source(source, old(pmc).mor@)
            &&& final(pmc).mckr@ == with_field(old(pmc).mckr@, MCKR_CSS, 2, css_of(source))
            &&& final(pmc).pllar@ == old(pmc).pllar@
            &&& final(eefc0).fmr@ == old(eefc0).fmr@
            &&& final(eefc1).fmr@ == old(eefc1).fmr@
        },
        r == Err::<u32, Timeout>(Timeout::Flash) ==> {
            &&& final(pmc).mor@ == mor_after_source(source, old(pmc).mor@)
            &&& final(pmc).mckr@ == with_field(old(pmc).mckr@, MCKR_CSS, 2, css_of(source))
            &&& final(pmc).pllar@ == old(pmc).pllar@
            &&& final(eefc0).fmr@ == with_field(
                old(eefc0).fmr@,
                0,
                FMR_FWS_WIDTH,
                wait_states(final_freq(source, pll, old(pmc).mcfr@)) as u32,
            )
            &&& final(eefc1).fmr@ == with_field(
                old(eefc1).fmr@,
                0,
                FMR_FWS_WIDTH,
                wait_states(final_freq(source, pll, old(pmc).mcfr@)) as u32,
            )
        },
        r == Err::<u32, Timeout>(Timeout::PllLock) ==> {
            &&& final(pmc).mor@ == mor_after_source(source, old(pmc).mor@)
            &&& final(pmc).mckr@ == with_field(old(pmc).mckr@, MCKR_CSS, 2, css_of(source))
            &&& pll matches Some(p) && final(pmc).pllar@ == pllar_for(old(pmc).pllar@, p)
            &&& final(eefc0).fmr@ == with_field(
                old(eefc0).fmr@,
                0,
                FMR_FWS_WIDTH,
                wait_states(final_freq(source, pll, old(pmc).mcfr@)) as u32,
            )
            &&& final(eefc1).fmr@ == with_field(
                old(eefc1).fmr@,
                0,
                FMR_FWS_WIDTH,
                wait_states(final_freq(source, pll, old(pmc).mcfr@)) as u32,
            )
        },
        r is Ok ==> final(pmc).pllar@ == match pll {
            Some(p) => pllar_for(old(pmc).pllar@, p),
            None => old(pmc).pllar@,
        },
        r matches Ok(f) ==> final(eefc0).fmr@ == with_field(old(eefc0).fmr@, 0, FMR_FWS_WIDTH, wait_states(f as int) as u32),
        r matches Ok(f) ==> final(eefc1).fmr@ == with_field(old(eefc1).fmr@, 0, FMR_FWS_WIDTH, wait_states(f as int) as u32),
{
    match source.init(&mut pmc.mor, &mut pmc.mckr, &pmc.sr, max_polls) {
        Err(e) => return Err(e),
        Ok(()) => {},
    }
    let src_freq = match source.freq(pmc, max_polls) {
        Some(f) => f,
        None => return Err(Timeout::FrequencyMeasure),
    };
    let freq = match pll {
        Some(p) => p.apply_freq(src_freq),
        None => src_freq,
    };
    match init_flash(eefc0, eefc1, freq, max_polls) {
        Err(e) => return Err(e),
        Ok(()) => {},
    }
    match pll {
        Some(p) => match p.init(&mut pmc.pllar, &mut pmc.mckr, &pmc.sr, max_polls) {
            Err(e) => return Err(e),
            Ok(()) => {},
        },
        None => {},
    }
    Ok(freq)
}

/// Flash wait states that the fixed boot sequence programs.
pub const BOOT_WAIT_STATES: u32 = 4;
/// PLL A multiplier field of the fixed boot sequence (times four).
pub const BOOT_PLL_MUL: u32 = 0x3;
/// PLL A divider of the fixed boot sequence.
pub const BOOT_PLL_DIV: u32 = 0x1;
/// PLL A lock count of the fixed boot sequence.
pub const BOOT_PLL_COUNT: u32 = 0x3f;

/// The PLL settings of the fixed boot sequence.
pub open spec fn boot_pll() -> Pll {
    Pll { mul: BOOT_PLL_MUL, div: BOOT_PLL_DIV, count: BOOT_PLL_COUNT }
}

/// Main oscillator register value that enables the crystal, keeping the RC
/// oscillator on.
pub open spec fn mor_boot_enable(mor: u32) -> u32 {
    with_field(
        with_field(
            with_field(with_field(mor, MOR_KEY_LO, 8, MOR_KEY), MOR_MOSCXTST, 8, MAIN_OSC_STARTUP),
            MOR_MOSCRCEN,
            1,
            1,
        ),
        MOR_MOSCXTEN,
        1,
        1,
    )
}

/// Whether the crystal oscillator is already the main clock.
pub open spec fn xtal_selected(mor: u32) -> bool {
    field_value(mor, MOR_MOSCSEL, 1) == 1
}

/// Main oscillator register after the fixed boot sequence.
pub open spec fn mor_after_boot(mor: u32) -> u32 {
    let m = if xtal_selected(mor) { mor } else { mor_boot_enable(mor) };
    with_field(mor_boot_enable(m), MOR_MOSCSEL, 1, 1)
}

/// Outcome of the fixed boot sequence, from the registers that it polls.
pub open spec fn boot_outcome(mor: u32, sr: u32, polls: u32) -> Result<(), Timeout> {
    if !xtal_selected(mor) && (polls == 0 || !bit_set(sr, SR_MOSCXTS)) {
        Err(Timeout::MainOscillator)
    } else if polls == 0 || !bit_set(sr, SR_MOSCSELS) {
        Err(Timeout::MainSelect)
    } else if !bit_set(sr, SR_MCKRDY) {
        Err(Timeout::MasterClock)
    } else if !bit_set(sr, SR_LOCKA) {
        Err(Timeout::PllLock)
    } else {
        Ok(())
    }
}

/// The fixed boot sequence: four flash wait states, crystal oscillator as
/// main clock, PLL A at four times the crystal, master clock from PLL A
/// divided by two.
pub fn temp_boot(pmc: &mut Pmc, eefc0: &mut Eefc, eefc1: &mut Eefc, max_polls: u32) -> (r: Result<(), Timeout>)
    ensures
        r == boot_outcome(old(pmc).mor@, old(pmc).sr@, max_polls),
        final(pmc).sr@ == old(pmc).sr@ && final(pmc).mcfr@ == old(pmc).mcfr@,
        final(pmc).same_clock_gates(*old(pmc)),
        final(eefc0).fsr@ == old(eefc0).fsr@ && final(eefc1).fsr@ == old(eefc1).fsr@,
        final(eefc0).fmr@ == with_field(old(eefc0).fmr@, 0, FMR_FWS_WIDTH, BOOT_WAIT_STATES),
        final(eefc1).fmr@ == with_field(old(eefc1).fmr@, 0, FMR_FWS_WIDTH, BOOT_WAIT_STATES),
        r is Ok ==> final(pmc).mor@ == mor_after_boot(old(pmc).mor@),
        r == Err::<(), Timeout>(Timeout::MainOscillator) ==> final(pmc).mor@ == mor_boot_enable(old(pmc).mor@),
        r is Err && r != Err::<(), Timeout>(Timeout::MainOscillator) ==> final(pmc).mor@ == mor_after_boot(
            old(pmc).mor@,
        ),
        r == Err::<(), Timeout>(Timeout::MainOscillator) || r == Err::<(), Timeout>(Timeout::MainSelect) ==> {
            &&& final(pmc).mckr@ == old(pmc).mckr@
            &&& final(pmc).pllar@ == old(pmc).pllar@
        },
        r == Err::<(), Timeout>(Timeout::MasterClock) ==> {
            &&& final(pmc).mckr@ == with_field(old(pmc).mckr@, MCKR_CSS, 2, css_bits(MasterClockSource::MAIN_CLK))
            &&& final(pmc).pllar@ == old(pmc).pllar@
        },
        r == Err::<(), Timeout>(Timeout::PllLock) ==> {
            &&& final(pmc).mckr@ == with_field(old(pmc).mckr@, MCKR_CSS, 2, css_bits(MasterClockSource::MAIN_CLK))
            &&& final(pmc).pllar@ == pllar_for(old(pmc).pllar@, boot_pll())
        },
        r is Ok ==> final(pmc).pllar@ == pllar_for(old(pmc).pllar@, boot_pll()),
        r is Ok ==> final(pmc).mckr@ == mckr_to_pll(
            with_field(old(pmc).mckr@, MCKR_CSS, 2, css_bits(MasterClockSource::MAIN_CLK)),
            pres_bits(Prescaler::CLK_2),
        ),
{
    eefc0.fmr.set(rw_range(0, FMR_FWS_WIDTH), BOOT_WAIT_STATES);
    eefc1.fmr.set(rw_range(0, FMR_FWS_WIDTH), BOOT_WAIT_STATES);

    let sel = pmc.mor.get(rw_bit(MOR_MOSCSEL));
    if sel != 1 {
        let u = pmc.mor.modify().with(rw_range(MOR_KEY_LO, 8), MOR_KEY).with(rw_range(MOR_MOSCXTST, 8), MAIN_OSC_STARTUP).with(
            rw_bit(MOR_MOSCRCEN),
            1,
        ).with(rw_bit(MOR_MOSCXTEN), 1);
        pmc.mor.commit(u);
        if !pmc.sr.wait_for(ro_bit(SR_MOSCXTS), max_polls) {
            return Err(Timeout::MainOscillator);
        }
    }
    let u = pmc.mor.modify().with(rw_range(MOR_KEY_LO, 8), MOR_KEY).with(rw_range(MOR_MOSCXTST, 8), MAIN_OSC_STARTUP).with(
        rw_bit(MOR_MOSCRCEN),
        1,
    ).with(rw_bit(MOR_MOSCXTEN), 1).with(rw_bit(MOR_MOSCSEL), 1);
    pmc.mor.commit(u);
    if !pmc.sr.wait_for(ro_bit(SR_MOSCSELS), max_polls) {
        return Err(Timeout::MainSelect);
    }
    pmc.mckr.set(rw_range(MCKR_CSS, 2), MasterClockSource::MAIN_CLK.bits());
    if !pmc.sr.wait_for(ro_bit(SR_MCKRDY), max_polls) {
        return Err(Timeout::MasterClock);
    }
    let u = pmc.pllar.modify().with(rw_bit(PLLAR_ONE), 1).with(rw_range(PLLAR_MULA, 11), BOOT_PLL_MUL).with(
        rw_range(PLLAR_DIVA, 8),
        BOOT_PLL_DIV,
    ).with(rw_range(PLLAR_PLLACOUNT, 6), BOOT_PLL_COUNT);
    pmc.pllar.commit(u);
    if !pmc.sr.wait_for(ro_bit(SR_LOCKA), max_polls) {
        return Err(Timeout::PllLock);
    }
    pmc.mckr.set(rw_range(MCKR_PRES, 3), Prescaler::CLK_2.bits());
    if !pmc.sr.wait_for(ro_bit(SR_MCKRDY), max_polls) {
        return Err(Timeout::MasterClock);
    }
    pmc.mckr.set(rw_range(MCKR_CSS, 2), MasterClockSource::PLLA_CLK.bits());
    if !pmc.sr.wait_for(ro_bit(SR_MCKRDY), max_polls) {
        return Err(Timeout::MasterClock);
    }
    Ok(())
}

/// Master clock source selection (field CSS of the master clock register).
#[allow(non_camel_case_types)]
#[derive(Clone, Copy, PartialEq, Eq, Structural, Debug)]
pub enum MasterClockSource {
    SLOW_CLK,
    MAIN_CLK,
    PLLA_CLK,
    UPLL_CLK,
}

/// Master clock prescaler (field PRES of the master clock register).
#[allow(non_camel_case_types)]
#[derive(Clone, Copy, PartialEq, Eq, Structural, Debug)]
pub enum Prescaler {
    CLK,
    CLK_2,
    CLK_4,
    CLK_8,
    CLK_16,
    CLK_32,
    CLK_64,
    CLK_3,
}

pub open spec fn css_bits(c: MasterClockSource) -> u32 {
    match c {
        MasterClockSource::SLOW_CLK => 0,
        MasterClockSource::MAIN_CLK => 1,
        MasterClockSource::PLLA_CLK => 2,
        MasterClockSource::UPLL_CLK => 3,
    }
}

pub open spec fn pres_bits(p: Prescaler) -> u32 {
    match p {
        Prescaler::CLK => 0,
        Prescaler::CLK_2 => 1,
        Prescaler::CLK_4 => 2,
        Prescaler::CLK_8 => 3,
        Prescaler::CLK_16 => 4,
        Prescaler::CLK_32 => 5,
        Prescaler::CLK_64 => 6,
        Prescaler::CLK_3 => 7,
    }
}

impl MasterClockSource {
    /// The field's bit pattern for this source.
    pub fn bits(self) -> (r: u32)
        ensures
            r == css_bits(self),
            r < 4,
    {
        match self {
            MasterClockSource::SLOW_CLK => 0,
            MasterClockSource::MAIN_CLK => 1,
            MasterClockSource::PLLA_CLK => 2,
            MasterClockSource::UPLL_CLK => 3,
        }
    }

    /// The source that a two-bit pattern names.
    pub fn from_bits(v: u32) -> (r: MasterClockSource)
        requires
            v < 4,
        ensures
            css_bits(r) == v,
    {
        if v == 0 {
            MasterClockSource::SLOW_CLK
        } else if v == 1 {
            MasterClockSource::MAIN_CLK
        } else if v == 2 {
            MasterClockSource::PLLA_CLK
        } else {
            MasterClockSource::UPLL_CLK
        }
    }
}

impl Prescaler {
    /// The field's bit pattern for this prescaler.
    pub fn bits(self) -> (r: u32)
        ensures
            r == pres_bits(self),
            r < 8,
    {
        match self {
            Prescaler::CLK => 0,
            Prescaler::CLK_2 => 1,
            Prescaler::CLK_4 => 2,
            Prescaler::CLK_8 => 3,
            Prescaler::CLK_16 => 4,
            Prescaler::CLK_32 => 5,
            Prescaler::CLK_64 => 6,
            Prescaler::CLK_3 => 7,
        }
    }

    /// The prescaler that a three-bit pattern names.
    pub fn from_bits(v: u32) -> (r: Prescaler)
        requires
            v < 8,
        ensures
            pres_bits(r) == v,
    {
        if v == 0 {
            Prescaler::CLK
        } else if v == 1 {
            Prescaler::CLK_2
        } else if v == 2 {
            Prescaler::CLK_4
        } else if v == 3 {
            Prescaler::CLK_8
        } else if v == 4 {
            Prescaler::CLK_16
        } else if v == 5 {
            Prescaler::CLK_32
        } else if v == 6 {
            Prescaler::CLK_64
        } else {
            Prescaler::CLK_3
        }
    }
}

/// The master clock source that the master clock register selects.
pub fn master_clock_source(pmc: &Pmc) -> (r: MasterClockSource)
    ensures
        css_bits(r) == field_value(pmc.mckr@, MCKR_CSS, 2),
{
    let v = pmc.mckr.get(rw_range(MCKR_CSS, 2));
    let ghost w = pmc.mckr@;
    assert(field_value(w, 0, 2) < 4) by (bit_vector);
    MasterClockSource::from_bits(v)
}

/// The prescaler that the master clock register selects.
pub fn master_clock_prescaler(pmc: &Pmc) -> (r: Prescaler)
    ensures
        pres_bits(r) == field_value(pmc.mckr@, MCKR_PRES, 3),
{
    let v = pmc.mckr.get(rw_range(MCKR_PRES, 3));
    let ghost w = pmc.mckr@;
    assert(field_value(w, 4, 3) < 8) by (bit_vector);
    Prescaler::from_bits(v)
}

pub open spec fn rw_field(lo: u32, width: u32) -> Field {
    Field { lo, width, access: Access::ReadWrite }
}

pub open spec fn ro_field(lo: u32, width: u32) -> Field {
    Field { lo, width, access: Access::ReadOnly }
}

/// Fields of the main oscillator register, from bit 0 up.
pub open spec fn mor_fields() -> Seq<Field> {
    seq![
        rw_field(MOR_MOSCXTEN, 1),
        rw_field(MOR_MOSCXTBY, 1),
        rw_field(MOR_MOSCRCEN, 1),
        rw_field(MOR_MOSCRCF, 3),
        rw_field(MOR_MOSCXTST, 8),
        rw_field(MOR_KEY_LO, 8),
        rw_field(MOR_MOSCSEL, 1),
        rw_field(MOR_CFDEN, 1),
    ]
}

/// Fields of the main clock frequency register.
pub open spec fn mcfr_fields() -> Seq<Field> {
    seq![ro_field(0, MCFR_MAINF_WIDTH), ro_field(MCFR_MAINFRDY, 1)]
}

/// Fields of the PLL A register.
pub open spec fn pllar_fields() -> Seq<Field> {
    seq![rw_field(PLLAR_DIVA, 8), rw_field(PLLAR_PLLACOUNT, 6), rw_field(PLLAR_MULA, 11), rw_field(PLLAR_ONE, 1)]
}

/// Fields of the master clock register.
pub open spec fn mckr_fields() -> Seq<Field> {
    seq![rw_field(MCKR_CSS, 2), rw_field(MCKR_PRES, 3), rw_field(MCKR_PLLADIV2, 1), rw_field(MCKR_UPLLDIV2, 1)]
}

/// Flags of the status register.
pub open spec fn sr_fields() -> Seq<Field> {
    seq![
        ro_field(SR_MOSCXTS, 1),
        ro_field(SR_LOCKA, 1),
        ro_field(SR_MCKRDY, 1),
        ro_field(SR_MOSCSELS, 1),
        ro_field(SR_MOSCRCS, 1),
    ]
}

/// Fields of the flash mode and flash status registers.
pub open spec fn eefc_fields() -> (Seq<Field>, Seq<Field>) {
    (seq![rw_field(0, FMR_FWS_WIDTH)], seq![ro_field(FSR_FREADY, 1)])
}

/// The main oscillator register's fields do not overlap.
pub proof fn lemma_mor_layout()
    ensures
        pairwise_disjoint(mor_fields()),
{
    let fs = mor_fields();
    assert(ascending(fs));
    lemma_ascending_disjoint(fs);
}

/// The main clock frequency register's fields do not overlap.
pub proof fn lemma_mcfr_layout()
    ensures
        pairwise_disjoint(mcfr_fields()),
{
    assert(ascending(mcfr_fields()));
    lemma_ascending_disjoint(mcfr_fields());
}

/// The PLL A register's fields do not overlap.
pub proof fn lemma_pllar_layout()
    ensures
        pairwise_disjoint(pllar_fields()),
{
    assert(ascending(pllar_fields()));
    lemma_ascending_disjoint(pllar_fields());
}

/// The master clock register's fields do not overlap.
pub proof fn lemma_mckr_layout()
    ensures
        pairwise_disjoint(mckr_fields()),
{
    assert(ascending(mckr_fields()));
    lemma_ascending_disjoint(mckr_fields());
}

/// The status register's flags do not overlap.
pub proof fn lemma_sr_layout()
    ensures
        pairwise_disjoint(sr_fields()),
{
    assert(ascending(sr_fields()));
    lemma_ascending_disjoint(sr_fields());
}

/// Each flash controller register has one well-formed field.
pub proof fn lemma_eefc_layout()
    ensures
        pairwise_disjoint(eefc_fields().0),
        pairwise_disjoint(eefc_fields().1),
        ascending(eefc_fields().0),
        ascending(eefc_fields().1),
{
}

} // verus!
