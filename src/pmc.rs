//! The power management controller's register block: peripheral clock
//! enable/disable/status, oscillators, PLL A, master clock and status.

use vstd::prelude::*;
use crate::register::{bit_set, lemma_elements_disjoint, with_field, Access, Field, Reg};

verus! {

/// PMC register block.
pub struct Pmc {
    /// Peripheral clock enable 0 (write-only, one bit per peripheral 0..31).
    pub pcer0: Reg,
    /// Peripheral clock disable 0 (write-only).
    pub pcdr0: Reg,
    /// Peripheral clock status 0 (read-only).
    pub pcsr0: Reg,
    /// Main oscillator register.
    pub mor: Reg,
    /// Main clock frequency register (read-only).
    pub mcfr: Reg,
    /// PLL A register.
    pub pllar: Reg,
    /// Master clock register.
    pub mckr: Reg,
    /// Status register (read-only).
    pub sr: Reg,
    /// Peripheral clock enable 1 (write-only, peripherals 32..44).
    pub pcer1: Reg,
    /// Peripheral clock disable 1 (write-only).
    pub pcdr1: Reg,
    /// Peripheral clock status 1 (read-only).
    pub pcsr1: Reg,
}

/// Byte offsets of the PMC registers from the block's base address.
pub const PCER0_OFFSET: u32 = 0x10;
pub const PCDR0_OFFSET: u32 = 0x14;
pub const PCSR0_OFFSET: u32 = 0x18;
pub const MOR_OFFSET: u32 = 0x20;
pub const MCFR_OFFSET: u32 = 0x24;
pub const PLLAR_OFFSET: u32 = 0x28;
pub const MCKR_OFFSET: u32 = 0x30;
pub const SR_OFFSET: u32 = 0x68;
pub const PCER1_OFFSET: u32 = 0x100;
pub const PCDR1_OFFSET: u32 = 0x104;
pub const PCSR1_OFFSET: u32 = 0x108;

impl Pmc {
    /// A block with every register clear.
    pub fn new() -> (r: Pmc)
        ensures
            r.pcer0@ == 0 && r.pcdr0@ == 0 && r.pcsr0@ == 0,
            r.pcer1@ == 0 && r.pcdr1@ == 0 && r.pcsr1@ == 0,
            r.mor@ == 0 && r.mcfr@ == 0 && r.pllar@ == 0 && r.mckr@ == 0 && r.sr@ == 0,
    {
        Pmc {
            pcer0: Reg::new(0),
            pcdr0: Reg::new(0),
            pcsr0: Reg::new(0),
            mor: Reg::new(0),
            mcfr: Reg::new(0),
            pllar: Reg::new(0),
            mckr: Reg::new(0),
            sr: Reg::new(0),
            pcer1: Reg::new(0),
            pcdr1: Reg::new(0),
            pcsr1: Reg::new(0),
        }
    }
}

/// Peripheral clock status after the hardware takes in an enable word and
/// a disable word.
pub open spec fn gate_status(status: u32, enable: u32, disable: u32) -> u32 {
    (status | enable) & !disable
}

/// The word that names bit `i` alone.
pub open spec fn bit_word(i: u32) -> u32 {
    with_field(0, i, 1, 1)
}

impl Pmc {
    /// The registers that clock gating does not touch are the same in both.
    pub open spec fn same_clock_tree(self, o: Pmc) -> bool {
        &&& self.mor@ == o.mor@
        &&& self.mcfr@ == o.mcfr@
        &&& self.pllar@ == o.pllar@
        &&& self.mckr@ == o.mckr@
        &&& self.sr@ == o.sr@
    }

    /// The peripheral clock registers are the same in both.
    pub open spec fn same_clock_gates(self, o: Pmc) -> bool {
        &&& self.pcer0@ == o.pcer0@
        &&& self.pcdr0@ == o.pcdr0@
        &&& self.pcsr0@ == o.pcsr0@
        &&& self.pcer1@ == o.pcer1@
        &&& self.pcdr1@ == o.pcdr1@
        &&& self.pcsr1@ == o.pcsr1@
    }

    /// Status of peripheral clocks 0..31 and 32..44.
    pub open spec fn gates(self) -> (u32, u32) {
        (self.pcsr0@, self.pcsr1@)
    }

    /// What the hardware does with the enable and disable registers: their
    /// bits are taken into the status registers and the action registers
    /// read back as zero. A simulated block calls this between accesses.
    pub fn reflect_clock_gates(&mut self)
        ensures
            final(self).pcsr0@ == gate_status(old(self).pcsr0@, old(self).pcer0@, old(self).pcdr0@),
            final(self).pcsr1@ == gate_status(old(self).pcsr1@, old(self).pcer1@, old(self).pcdr1@),
            final(self).pcer0@ == 0 && final(self).pcdr0@ == 0,
            final(self).pcer1@ == 0 && final(self).pcdr1@ == 0,
            final(self).same_clock_tree(*old(self)),
    {
        let s0 = (self.pcsr0.read() | self.pcer0.read()) & !self.pcdr0.read();
        let s1 = (self.pcsr1.read() | self.pcer1.read()) & !self.pcdr1.read();
        self.pcsr0.write(s0);
        self.pcsr1.write(s1);
        self.pcer0.write(0);
        self.pcdr0.write(0);
        self.pcer1.write(0);
        self.pcdr1.write(0);
    }
}

/// Taking in an enable word of bit `i` sets bit `i` and no other; a
/// disable word of bit `i` clears bit `i` and no other.
pub proof fn lemma_gate_word_bits(s: u32, i: u32, j: u32)
    requires
        i < 32,
        j < 32,
    ensures
        bit_set(gate_status(s, bit_word(i), 0), j) == (i == j || bit_set(s, j)),
        bit_set(gate_status(s, 0, bit_word(i)), j) == (i != j && bit_set(s, j)),
{
    assert(bit_set(gate_status(s, bit_word(i), 0), j) == (i == j || bit_set(s, j))) by (bit_vector)
        requires
            i < 32,
            j < 32,
    ;
    assert(bit_set(gate_status(s, 0, bit_word(i)), j) == (i != j && bit_set(s, j))) by (bit_vector)
        requires
            i < 32,
            j < 32,
    ;
}

/// Element 0 of a register made of 32 one-bit fields, one per peripheral or
/// pin.
pub open spec fn bit_array(access: Access) -> Field {
    Field { lo: 0, width: 1, access }
}

/// The peripheral clock enable, disable and status registers are each an
/// array of 32 one-bit fields; no two of them overlap.
pub proof fn lemma_clock_gate_layout(access: Access, i: u32, j: u32)
    requires
        i < 32,
        j < 32,
        i != j,
    ensures
        bit_array(access).spec_element(i).disjoint(bit_array(access).spec_element(j)),
        bit_array(access).spec_element(i).lo == i,
{
    lemma_elements_disjoint(bit_array(access), i, j);
}

} // verus!
