//! PIO controllers and pins: multiplexing between GPIO and the two
//! peripheral functions, direction, and digital output and input.

use vstd::prelude::*;
use crate::peripheral_clock::{PeripheralClock, PERIPHERAL_CLOCK_COUNT};
use crate::pmc::{bit_array, bit_word, gate_status, lemma_gate_word_bits, Pmc};
use crate::register::{bit_set, lemma_elements_disjoint, with_field, Access, Field, Reg};

verus! {

/// The PIO controllers.
#[derive(Clone, Copy, PartialEq, Eq, Structural, Debug)]
pub enum Controller {
    ControllerA,
    ControllerB,
    ControllerC,
    ControllerD,
    ControllerE,
    ControllerF,
}

/// The two peripheral functions that a pin can be handed to.
#[derive(Clone, Copy, PartialEq, Eq, Structural, Debug)]
pub enum Peripheral {
    PeripheralA,
    PeripheralB,
}

/// Direction of a GPIO pin.
#[derive(Clone, Copy, PartialEq, Eq, Structural, Debug)]
pub enum GpioDirection {
    In,
    Out,
}

/// Level of a GPIO pin.
#[derive(Clone, Copy, PartialEq, Eq, Structural, Debug)]
pub enum GpioLevel {
    Low,
    High,
}

/// What a pin is used for.
#[derive(Clone, Copy, PartialEq, Eq, Structural, Debug)]
pub enum Function {
    Gpio(GpioDirection),
    Peripheral(Peripheral),
}

/// A GPIO pin by its flat index, controller ordinal * 32 + pin.
#[derive(Clone, Copy, PartialEq, Eq, Structural, Debug)]
pub struct GpioConf {
    pub index: usize,
    pub direction: GpioDirection,
}

/// Pins per controller.
pub const PINS_PER_CONTROLLER: u8 = 32;
/// Number of flat pin indices.
pub const PIN_INDEX_COUNT: usize = 192;
/// Peripheral clock of controller A.
pub const PIOA_CLOCK: u8 = 11;
/// Peripheral clock of controller B.
pub const PIOB_CLOCK: u8 = 12;

pub open spec fn ordinal(c: Controller) -> int {
    match c {
        Controller::ControllerA => 0,
        Controller::ControllerB => 1,
        Controller::ControllerC => 2,
        Controller::ControllerD => 3,
        Controller::ControllerE => 4,
        Controller::ControllerF => 5,
    }
}

/// Only the clocks of controllers A and B are known.
pub open spec fn has_clock(c: Controller) -> bool {
    c == Controller::ControllerA || c == Controller::ControllerB
}

pub open spec fn clock_index(c: Controller) -> u8 {
    if c == Controller::ControllerA {
        PIOA_CLOCK
    } else {
        PIOB_CLOCK
    }
}

/// Value of the peripheral select field for `p`.
pub open spec fn peripheral_code(p: Peripheral) -> u32 {
    match p {
        Peripheral::PeripheralA => 0,
        Peripheral::PeripheralB => 1,
    }
}

/// The level that data status `pdsr` shows for pin `pin`.
pub open spec fn level_of(pdsr: u32, pin: u8) -> GpioLevel {
    if bit_set(pdsr, pin as u32) {
        GpioLevel::High
    } else {
        GpioLevel::Low
    }
}

/// Register block of one PIO controller, bound to that controller.
pub struct Pio {
    /// The controller whose registers these are.
    pub controller: Controller,
    /// PIO enable (write-only).
    pub per: Reg,
    /// PIO disable (write-only).
    pub pdr: Reg,
    /// PIO status (read-only).
    pub psr: Reg,
    /// Output enable (write-only).
    pub oer: Reg,
    /// Output disable (write-only).
    pub odr: Reg,
    /// Output status (read-only).
    pub osr: Reg,
    /// Set output data (write-only).
    pub sodr: Reg,
    /// Clear output data (write-only).
    pub codr: Reg,
    /// Output data status.
    pub odsr: Reg,
    /// Pin data status (read-only).
    pub pdsr: Reg,
    /// Peripheral A/B select, one bit per pin.
    pub absr: Reg,
}

/// Byte offsets of the PIO registers from the block's base address.
pub const PER_OFFSET: u32 = 0x0;
pub const PDR_OFFSET: u32 = 0x4;
pub const PSR_OFFSET: u32 = 0x8;
pub const OER_OFFSET: u32 = 0x10;
pub const ODR_OFFSET: u32 = 0x14;
pub const OSR_OFFSET: u32 = 0x18;
pub const SODR_OFFSET: u32 = 0x30;
pub const CODR_OFFSET: u32 = 0x34;
pub const ODSR_OFFSET: u32 = 0x38;
pub const PDSR_OFFSET: u32 = 0x3c;
pub const ABSR_OFFSET: u32 = 0x70;

impl Pio {
    /// The register at byte offset `offset`; zero where the block has none.
    pub open spec fn word(&self, offset: u32) -> u32 {
        if offset == PER_OFFSET {
            self.per@
        } else if offset == PDR_OFFSET {
            self.pdr@
        } else if offset == PSR_OFFSET {
            self.psr@
        } else if offset == OER_OFFSET {
            self.oer@
        } else if offset == ODR_OFFSET {
            self.odr@
        } else if offset == OSR_OFFSET {
            self.osr@
        } else if offset == SODR_OFFSET {
            self.sodr@
        } else if offset == CODR_OFFSET {
            self.codr@
        } else if offset == ODSR_OFFSET {
            self.odsr@
        } else if offset == PDSR_OFFSET {
            self.pdsr@
        } else if offset == ABSR_OFFSET {
            self.absr@
        } else {
            0
        }
    }

    /// Same controller, and the same contents in every register whose offset
    /// is not in `changed`.
    pub open spec fn agrees_except(self, o: Pio, changed: Set<u32>) -> bool {
        &&& self.controller == o.controller
        &&& forall|off: u32| !changed.contains(off) ==> #[trigger] self.word(off) == o.word(off)
    }

    /// The registers of `controller`, all clear.
    pub fn new(controller: Controller) -> (r: Pio)
        ensures
            r.controller == controller,
            r.per@ == 0 && r.pdr@ == 0 && r.psr@ == 0,
            r.oer@ == 0 && r.odr@ == 0 && r.osr@ == 0,
            r.sodr@ == 0 && r.codr@ == 0 && r.odsr@ == 0 && r.pdsr@ == 0,
            r.absr@ == 0,
    {
        Pio {
            controller,
            per: Reg::new(0),
            pdr: Reg::new(0),
            psr: Reg::new(0),
            oer: Reg::new(0),
            odr: Reg::new(0),
            osr: Reg::new(0),
            sodr: Reg::new(0),
            codr: Reg::new(0),
            odsr: Reg::new(0),
            pdsr: Reg::new(0),
            absr: Reg::new(0),
        }
    }

    /// What the hardware does with the enable/disable and set/clear
    /// registers: their bits are taken into the status registers, the pin
    /// data following the output data, and the action registers read back
    /// as zero. A simulated block calls this between accesses.
    pub fn reflect(&mut self)
        ensures
            final(self).controller == old(self).controller,
            final(self).psr@ == gate_status(old(self).psr@, old(self).per@, old(self).pdr@),
            final(self).osr@ == gate_status(old(self).osr@, old(self).oer@, old(self).odr@),
            final(self).odsr@ == gate_status(old(self).odsr@, old(self).sodr@, old(self).codr@),
            final(self).pdsr@ == gate_status(old(self).pdsr@, old(self).sodr@, old(self).codr@),
            final(self).per@ == 0 && final(self).pdr@ == 0,
            final(self).oer@ == 0 && final(self).odr@ == 0,
            final(self).sodr@ == 0 && final(self).codr@ == 0,
            final(self).absr@ == old(self).absr@,
    {
        let psr = (self.psr.read() | self.per.read()) & !self.pdr.read();
        let osr = (self.osr.read() | self.oer.read()) & !self.odr.read();
        let set = self.sodr.read();
        let clear = self.codr.read();
        let odsr = (self.odsr.read() | set) & !clear;
        let pdsr = (self.pdsr.read() | set) & !clear;
        self.psr.write(psr);
        self.osr.write(osr);
        self.odsr.write(odsr);
        self.pdsr.write(pdsr);
        self.per.write(0);
        self.pdr.write(0);
        self.oer.write(0);
        self.odr.write(0);
        self.sodr.write(0);
        self.codr.write(0);
    }
}

/// The six PIO register blocks.
pub struct PioBank {
    pub a: Pio,
    pub b: Pio,
    pub c: Pio,
    pub d: Pio,
    pub e: Pio,
    pub f: Pio,
}

impl PioBank {
    /// Each controller's block, all clear.
    pub fn new() -> (r: PioBank)
        ensures
            r.wf(),
    {
        PioBank {
            a: Pio::new(Controller::ControllerA),
            b: Pio::new(Controller::ControllerB),
            c: Pio::new(Controller::ControllerC),
            d: Pio::new(Controller::ControllerD),
            e: Pio::new(Controller::ControllerE),
            f: Pio::new(Controller::ControllerF),
        }
    }

    /// Each block is bound to its own controller.
    pub open spec fn wf(&self) -> bool {
        &&& self.a.controller == Controller::ControllerA
        &&& self.b.controller == Controller::ControllerB
        &&& self.c.controller == Controller::ControllerC
        &&& self.d.controller == Controller::ControllerD
        &&& self.e.controller == Controller::ControllerE
        &&& self.f.controller == Controller::ControllerF
    }

    pub open spec fn block(&self, c: Controller) -> &Pio {
        match c {
            Controller::ControllerA => &self.a,
            Controller::ControllerB => &self.b,
            Controller::ControllerC => &self.c,
            Controller::ControllerD => &self.d,
            Controller::ControllerE => &self.e,
            Controller::ControllerF => &self.f,
        }
    }
}

impl Peripheral {
    /// Value of the peripheral select field that hands a pin to this
    /// function.
    pub fn select_code(self) -> (r: u32)
        ensures
            r == peripheral_code(self),
    {
        match self {
            Peripheral::PeripheralA => 0,
            Peripheral::PeripheralB => 1,
        }
    }
}

impl Controller {
    /// This controller's register block in `bank`.
    pub fn to_reg(self, bank: &PioBank) -> (r: &Pio)
        requires
            bank.wf(),
        ensures
            r == bank.block(self),
            r.controller == self,
    {
        match self {
            Controller::ControllerA => &bank.a,
            Controller::ControllerB => &bank.b,
            Controller::ControllerC => &bank.c,
            Controller::ControllerD => &bank.d,
            Controller::ControllerE => &bank.e,
            Controller::ControllerF => &bank.f,
        }
    }

    /// This controller's peripheral clock; known for A and B only.
    pub fn clock(self) -> (r: PeripheralClock)
        requires
            has_clock(self),
        ensures
            r.index == clock_index(self),
            r.index < PERIPHERAL_CLOCK_COUNT,
    {
        let index: u8 = match self {
            Controller::ControllerA => PIOA_CLOCK,
            _ => PIOB_CLOCK,
        };
        PeripheralClock { index }
    }
}

/// Controller and pin of a flat pin index.
pub fn decode(index: usize) -> (r: (Controller, u8))
    requires
        index < PIN_INDEX_COUNT,
    ensures
        ordinal(r.0) == index / 32,
        r.0 == decoded_controller(index),
        r.1 == index % 32,
{
    let pin = (index % 32) as u8;
    let controller = match index / 32 {
        0 => Controller::ControllerA,
        1 => Controller::ControllerB,
        2 => Controller::ControllerC,
        3 => Controller::ControllerD,
        4 => Controller::ControllerE,
        _ => Controller::ControllerF,
    };
    (controller, pin)
}

/// One pin of one controller. All of its state is in the registers.
#[derive(Clone, Copy, PartialEq, Eq, Structural, Debug)]
pub struct Pin {
    pub controller: Controller,
    pub pin: u8,
}

impl Pin {
    /// Enables the controller's clock, then sets the pin up for `function`:
    /// GPIO mode and direction, or hand-over to a peripheral function. Only
    /// controllers A and B have a known clock.
    pub fn new(controller: Controller, pin_index: u8, function: Function, pmc: &mut Pmc, pio: &mut Pio) -> (r: Pin)
        requires
            has_clock(controller),
            pin_index < PINS_PER_CONTROLLER,
            old(pio).controller == controller,
        ensures
            r == (Pin { controller, pin: pin_index }),
            final(pmc).pcer0@ == bit_word(clock_index(controller) as u32),
            final(pmc).pcer1@ == old(pmc).pcer1@,
            final(pmc).pcdr0@ == old(pmc).pcdr0@ && final(pmc).pcdr1@ == old(pmc).pcdr1@,
            final(pmc).gates() == old(pmc).gates(),
            final(pmc).same_clock_tree(*old(pmc)),
            function == Function::Gpio(GpioDirection::In) ==> final(pio).per@ == bit_word(pin_index as u32)
                && final(pio).odr@ == bit_word(pin_index as u32) && final(pio).agrees_except(
                *old(pio),
                set![PER_OFFSET, ODR_OFFSET],
            ),
            function == Function::Gpio(GpioDirection::Out) ==> final(pio).per@ == bit_word(pin_index as u32)
                && final(pio).oer@ == bit_word(pin_index as u32) && final(pio).agrees_except(
                *old(pio),
                set![PER_OFFSET, OER_OFFSET],
            ),
            function matches Function::Peripheral(p) ==> final(pio).pdr@ == bit_word(pin_index as u32)
                && final(pio).absr@ == with_field(old(pio).absr@, pin_index as u32, 1, peripheral_code(p))
                && final(pio).agrees_except(*old(pio), set![PDR_OFFSET, ABSR_OFFSET]),
    {
        let p = Pin { controller, pin: pin_index };
        let offset = p.pin as u32;
        p.start_clock(pmc);
        match function {
            Function::Gpio(direction) => {
                let ghost before = *pio;
                pio.per.trigger(Field::bit(offset, Access::WriteOnly), 1);
                let ghost enabled = *pio;
                assert(forall|off: u32| off != PER_OFFSET ==> #[trigger] enabled.word(off) == before.word(off));
                p.set_direction(pio, direction);
                proof {
                    assert(pio.word(PER_OFFSET) == enabled.word(PER_OFFSET));
                    let changed = if direction == GpioDirection::In {
                        ODR_OFFSET
                    } else {
                        OER_OFFSET
                    };
                    assert forall|off: u32| !set![PER_OFFSET, changed].contains(off) implies #[trigger] pio.word(
                        off,
                    ) == before.word(off) by {
                        assert(!set![changed].contains(off));
                        assert(pio.word(off) == enabled.word(off));
                    }
                }
            },
            Function::Peripheral(peripheral) => {
                pio.pdr.trigger(Field::bit(offset, Access::WriteOnly), 1);
                pio.absr.set(Field::bit(offset, Access::ReadWrite), peripheral.select_code());
            },
        }
        p
    }

    fn start_clock(&self, pmc: &mut Pmc)
        requires
            has_clock(self.controller),
        ensures
            final(pmc).pcer0@ == bit_word(clock_index(self.controller) as u32),
            final(pmc).pcer1@ == old(pmc).pcer1@,
            final(pmc).pcdr0@ == old(pmc).pcdr0@ && final(pmc).pcdr1@ == old(pmc).pcdr1@,
            final(pmc).gates() == old(pmc).gates(),
            final(pmc).same_clock_tree(*old(pmc)),
    {
        let p_clk = self.controller.clock();
        p_clk.enable(pmc);
    }

    /// The pin that a flat index names, set up as GPIO in the configured
    /// direction.
    pub fn from_conf(c: GpioConf, pmc: &mut Pmc, pio: &mut Pio) -> (r: Pin)
        requires
            c.index < PIN_INDEX_COUNT,
            has_clock(decoded_controller(c.index)),
            old(pio).controller == decoded_controller(c.index),
        ensures
            r == (Pin { controller: decoded_controller(c.index), pin: (c.index % 32) as u8 }),
            ordinal(r.controller) == c.index / 32,
            r.pin == c.index % 32,
            final(pmc).pcer0@ == bit_word(clock_index(r.controller) as u32),
            final(pmc).pcer1@ == old(pmc).pcer1@,
            final(pmc).pcdr0@ == old(pmc).pcdr0@ && final(pmc).pcdr1@ == old(pmc).pcdr1@,
            final(pmc).gates() == old(pmc).gates(),
            final(pmc).same_clock_tree(*old(pmc)),
            final(pio).per@ == bit_word(r.pin as u32),
            c.direction == GpioDirection::In ==> final(pio).odr@ == bit_word(r.pin as u32)
                && final(pio).agrees_except(*old(pio), set![PER_OFFSET, ODR_OFFSET]),
            c.direction == GpioDirection::Out ==> final(pio).oer@ == bit_word(r.pin as u32)
                && final(pio).agrees_except(*old(pio), set![PER_OFFSET, OER_OFFSET]),
    {
        let (controller, idx) = decode(c.index);
        Pin::new(controller, idx, Function::Gpio(c.direction), pmc, pio)
    }

    /// Drives the pin high: its bit alone to the set-output register.
    pub fn set_high(&self, pio: &mut Pio)
        requires
            self.pin < PINS_PER_CONTROLLER,
            old(pio).controller == self.controller,
        ensures
            final(pio).sodr@ == bit_word(self.pin as u32),
            final(pio).agrees_except(*old(pio), set![SODR_OFFSET]),
    {
        pio.sodr.trigger(Field::bit(self.pin as u32, Access::WriteOnly), 1);
    }

    /// Drives the pin low: its bit alone to the clear-output register.
    pub fn set_low(&self, pio: &mut Pio)
        requires
            self.pin < PINS_PER_CONTROLLER,
            old(pio).controller == self.controller,
        ensures
            final(pio).codr@ == bit_word(self.pin as u32),
            final(pio).agrees_except(*old(pio), set![CODR_OFFSET]),
    {
        pio.codr.trigger(Field::bit(self.pin as u32, Access::WriteOnly), 1);
    }

    /// The level in the pin data status register.
    pub fn level(&self, pio: &Pio) -> (r: GpioLevel)
        requires
            self.pin < PINS_PER_CONTROLLER,
            pio.controller == self.controller,
        ensures
            r == level_of(pio.pdsr@, self.pin),
    {
        if pio.pdsr.get_bit(Field::bit(self.pin as u32, Access::ReadOnly)) {
            GpioLevel::High
        } else {
            GpioLevel::Low
        }
    }

    /// Makes the pin an input (output disable) or an output (output enable).
    pub fn set_direction(&self, pio: &mut Pio, new_dir: GpioDirection)
        requires
            self.pin < PINS_PER_CONTROLLER,
            old(pio).controller == self.controller,
        ensures
            new_dir == GpioDirection::In ==> final(pio).odr@ == bit_word(self.pin as u32)
                && final(pio).agrees_except(*old(pio), set![ODR_OFFSET]),
            new_dir == GpioDirection::Out ==> final(pio).oer@ == bit_word(self.pin as u32)
                && final(pio).agrees_except(*old(pio), set![OER_OFFSET]),
    {
        let offset = self.pin as u32;
        match new_dir {
            GpioDirection::In => pio.odr.trigger(Field::bit(offset, Access::WriteOnly), 1),
            GpioDirection::Out => pio.oer.trigger(Field::bit(offset, Access::WriteOnly), 1),
        }
    }
}

/// The controller that a flat pin index names.
pub open spec fn decoded_controller(index: usize) -> Controller {
    let o = index / 32;
    if o == 0 {
        Controller::ControllerA
    } else if o == 1 {
        Controller::ControllerB
    } else if o == 2 {
        Controller::ControllerC
    } else if o == 3 {
        Controller::ControllerD
    } else if o == 4 {
        Controller::ControllerE
    } else {
        Controller::ControllerF
    }
}

/// With the pin data following the set and clear registers, a pin reads
/// high after it was driven high and low after it was driven low, whatever
/// it read before.
pub proof fn lemma_level_follows_output(pdsr: u32, pin: u8)
    requires
        pin < PINS_PER_CONTROLLER,
    ensures
        level_of(gate_status(pdsr, bit_word(pin as u32), 0), pin) == GpioLevel::High,
        level_of(gate_status(pdsr, 0, bit_word(pin as u32)), pin) == GpioLevel::Low,
{
    lemma_gate_word_bits(pdsr, pin as u32, pin as u32);
}

/// Every PIO register is an array of 32 one-bit fields, bit `n` for pin
/// `n`; the fields of two pins do not overlap.
pub proof fn lemma_pio_layout(access: Access, i: u32, j: u32)
    requires
        i < PINS_PER_CONTROLLER,
        j < PINS_PER_CONTROLLER,
        i != j,
    ensures
        bit_array(access).spec_element(i).disjoint(bit_array(access).spec_element(j)),
        bit_array(access).spec_element(i).lo == i,
{
    lemma_elements_disjoint(bit_array(access), i, j);
}

} // verus!
