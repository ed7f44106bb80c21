//! Peripheral clock gating: one enable and one disable bit per peripheral,
//! in two groups of registers.

use vstd::prelude::*;
use crate::pmc::{bit_word, gate_status, lemma_gate_word_bits, Pmc};
use crate::register::{bit_set, Access, Field};

verus! {

/// Clock of one peripheral, by its identifier 0..44.
#[derive(Clone, Copy, PartialEq, Eq, Structural, Debug)]
pub struct PeripheralClock {
    pub index: u8,
}

/// Which pair of enable/disable registers holds a peripheral's bit.
#[derive(Clone, Copy, PartialEq, Eq, Structural, Debug)]
pub enum Group {
    Group0,
    Group1,
}

/// Number of peripheral clock identifiers.
pub const PERIPHERAL_CLOCK_COUNT: u8 = 45;

/// Group and bit of peripheral clock `index`.
pub open spec fn group_of(index: u8) -> (Group, u8) {
    if index < 32 {
        (Group::Group0, index)
    } else {
        (Group::Group1, (index - 32) as u8)
    }
}

/// Clock gate status after enabling `index`.
pub open spec fn gates_after_enable(g: (u32, u32), index: u8) -> (u32, u32) {
    let (grp, bit) = group_of(index);
    match grp {
        Group::Group0 => (gate_status(g.0, bit_word(bit as u32), 0), g.1),
        Group::Group1 => (g.0, gate_status(g.1, bit_word(bit as u32), 0)),
    }
}

/// Clock gate status after disabling `index`.
pub open spec fn gates_after_disable(g: (u32, u32), index: u8) -> (u32, u32) {
    let (grp, bit) = group_of(index);
    match grp {
        Group::Group0 => (gate_status(g.0, 0, bit_word(bit as u32)), g.1),
        Group::Group1 => (g.0, gate_status(g.1, 0, bit_word(bit as u32))),
    }
}

/// Whether clock `index` is on in the status pair `g`.
pub open spec fn gate_on(g: (u32, u32), index: u8) -> bool {
    let (grp, bit) = group_of(index);
    match grp {
        Group::Group0 => bit_set(g.0, bit as u32),
        Group::Group1 => bit_set(g.1, bit as u32),
    }
}

impl PeripheralClock {
    /// The clock of peripheral `index`.
    pub fn new(index: u8) -> (r: PeripheralClock)
        ensures
            r.index == index,
    {
        PeripheralClock { index }
    }

    /// Group and bit of this clock; the index must be below 45.
    pub fn group_info(&self) -> (r: (Group, u8))
        requires
            self.index < PERIPHERAL_CLOCK_COUNT,
        ensures
            r == group_of(self.index),
    {
        if self.index < 32 {
            (Group::Group0, self.index)
        } else {
            (Group::Group1, self.index - 32)
        }
    }

    /// Writes this clock's bit, alone, to its group's enable register.
    pub fn enable(&self, pmc: &mut Pmc)
        requires
            self.index < PERIPHERAL_CLOCK_COUNT,
        ensures
            group_of(self.index).0 == Group::Group0 ==> final(pmc).pcer0@ == bit_word(
                group_of(self.index).1 as u32,
            ) && final(pmc).pcer1@ == old(pmc).pcer1@,
            group_of(self.index).0 == Group::Group1 ==> final(pmc).pcer1@ == bit_word(
                group_of(self.index).1 as u32,
            ) && final(pmc).pcer0@ == old(pmc).pcer0@,
            final(pmc).pcdr0@ == old(pmc).pcdr0@ && final(pmc).pcdr1@ == old(pmc).pcdr1@,
            final(pmc).gates() == old(pmc).gates(),
            final(pmc).same_clock_tree(*old(pmc)),
    {
        match self.group_info() {
            (Group::Group0, idx) => pmc.pcer0.trigger(Field::bit(idx as u32, Access::WriteOnly), 1),
            (Group::Group1, idx) => pmc.pcer1.trigger(Field::bit(idx as u32, Access::WriteOnly), 1),
        }
    }

    /// Writes this clock's bit, alone, to its group's disable register.
    pub fn disable(&self, pmc: &mut Pmc)
        requires
            self.index < PERIPHERAL_CLOCK_COUNT,
        ensures
            group_of(self.index).0 == Group::Group0 ==> final(pmc).pcdr0@ == bit_word(
                group_of(self.index).1 as u32,
            ) && final(pmc).pcdr1@ == old(pmc).pcdr1@,
            group_of(self.index).0 == Group::Group1 ==> final(pmc).pcdr1@ == bit_word(
                group_of(self.index).1 as u32,
            ) && final(pmc).pcdr0@ == old(pmc).pcdr0@,
            final(pmc).pcer0@ == old(pmc).pcer0@ && final(pmc).pcer1@ == old(pmc).pcer1@,
            final(pmc).gates() == old(pmc).gates(),
            final(pmc).same_clock_tree(*old(pmc)),
    {
        match self.group_info() {
            (Group::Group0, idx) => pmc.pcdr0.trigger(Field::bit(idx as u32, Access::WriteOnly), 1),
            (Group::Group1, idx) => pmc.pcdr1.trigger(Field::bit(idx as u32, Access::WriteOnly), 1),
        }
    }
}

proof fn lemma_word_repeat(s: u32, i: u32)
    requires
        i < 32,
    ensures
        gate_status(gate_status(s, bit_word(i), 0), bit_word(i), 0) == gate_status(s, bit_word(i), 0),
        gate_status(gate_status(s, 0, bit_word(i)), 0, bit_word(i)) == gate_status(s, 0, bit_word(i)),
        gate_status(gate_status(s, bit_word(i), 0), 0, bit_word(i)) == gate_status(s, 0, bit_word(i)),
        gate_status(gate_status(s, 0, bit_word(i)), bit_word(i), 0) == gate_status(s, bit_word(i), 0),
{
    assert(gate_status(gate_status(s, bit_word(i), 0), bit_word(i), 0) == gate_status(s, bit_word(i), 0))
        by (bit_vector)
        requires
            i < 32,
    ;
    assert(gate_status(gate_status(s, 0, bit_word(i)), 0, bit_word(i)) == gate_status(s, 0, bit_word(i)))
        by (bit_vector)
        requires
            i < 32,
    ;
    assert(gate_status(gate_status(s, bit_word(i), 0), 0, bit_word(i)) == gate_status(s, 0, bit_word(i)))
        by (bit_vector)
        requires
            i < 32,
    ;
    assert(gate_status(gate_status(s, 0, bit_word(i)), bit_word(i), 0) == gate_status(s, bit_word(i), 0))
        by (bit_vector)
        requires
            i < 32,
    ;
}

proof fn lemma_word_commute(s: u32, i: u32, j: u32)
    requires
        i < 32,
        j < 32,
        i != j,
    ensures
        gate_status(gate_status(s, bit_word(i), 0), bit_word(j), 0) == gate_status(
            gate_status(s, bit_word(j), 0),
            bit_word(i),
            0,
        ),
        gate_status(gate_status(s, 0, bit_word(i)), 0, bit_word(j)) == gate_status(
            gate_status(s, 0, bit_word(j)),
            0,
            bit_word(i),
        ),
        gate_status(gate_status(s, bit_word(i), 0), 0, bit_word(j)) == gate_status(
            gate_status(s, 0, bit_word(j)),
            bit_word(i),
            0,
        ),
{
    assert(gate_status(gate_status(s, bit_word(i), 0), bit_word(j), 0) == gate_status(
        gate_status(s, bit_word(j), 0),
        bit_word(i),
        0,
    )) by (bit_vector)
        requires
            i < 32,
            j < 32,
    ;
    assert(gate_status(gate_status(s, 0, bit_word(i)), 0, bit_word(j)) == gate_status(
        gate_status(s, 0, bit_word(j)),
        0,
        bit_word(i),
    )) by (bit_vector)
        requires
            i < 32,
            j < 32,
    ;
    assert(gate_status(gate_status(s, bit_word(i), 0), 0, bit_word(j)) == gate_status(
        gate_status(s, 0, bit_word(j)),
        bit_word(i),
        0,
    )) by (bit_vector)
        requires
            i < 32,
            j < 32,
            i != j,
    ;
}

/// Enabling or disabling one clock leaves the state of every other clock as
/// it was; the clock itself ends up on, respectively off.
pub proof fn lemma_gate_isolation(g: (u32, u32), i: u8, j: u8)
    requires
        i < PERIPHERAL_CLOCK_COUNT,
        j < PERIPHERAL_CLOCK_COUNT,
    ensures
        i != j ==> gate_on(gates_after_enable(g, i), j) == gate_on(g, j),
        i != j ==> gate_on(gates_after_disable(g, i), j) == gate_on(g, j),
        gate_on(gates_after_enable(g, i), i),
        !gate_on(gates_after_disable(g, i), i),
{
    let (gi, bi) = group_of(i);
    let (gj, bj) = group_of(j);
    lemma_gate_word_bits(g.0, bi as u32, bj as u32);
    lemma_gate_word_bits(g.1, bi as u32, bj as u32);
    lemma_gate_word_bits(g.0, bi as u32, bi as u32);
    lemma_gate_word_bits(g.1, bi as u32, bi as u32);
}

/// Enabling twice is enabling once, disabling twice is disabling once, and
/// of an enable and a disable of one clock the later one decides.
pub proof fn lemma_gate_idempotent(g: (u32, u32), i: u8)
    requires
        i < PERIPHERAL_CLOCK_COUNT,
    ensures
        gates_after_enable(gates_after_enable(g, i), i) == gates_after_enable(g, i),
        gates_after_disable(gates_after_disable(g, i), i) == gates_after_disable(g, i),
        gates_after_disable(gates_after_enable(g, i), i) == gates_after_disable(g, i),
        gates_after_enable(gates_after_disable(g, i), i) == gates_after_enable(g, i),
{
    let (gi, bi) = group_of(i);
    lemma_word_repeat(g.0, bi as u32);
    lemma_word_repeat(g.1, bi as u32);
}

/// Enables and disables of two different clocks may come in either order.
pub proof fn lemma_gate_commute(g: (u32, u32), i: u8, j: u8)
    requires
        i < PERIPHERAL_CLOCK_COUNT,
        j < PERIPHERAL_CLOCK_COUNT,
        i != j,
    ensures
        gates_after_enable(gates_after_enable(g, i), j) == gates_after_enable(gates_after_enable(g, j), i),
        gates_after_disable(gates_after_disable(g, i), j) == gates_after_disable(gates_after_disable(g, j), i),
        gates_after_disable(gates_after_enable(g, i), j) == gates_after_enable(gates_after_disable(g, j), i),
{
    let (gi, bi) = group_of(i);
    let (gj, bj) = group_of(j);
    if gi == gj {
        lemma_word_commute(g.0, bi as u32, bj as u32);
        lemma_word_commute(g.1, bi as u32, bj as u32);
    }
}

} // verus!
