//! The interrupt vector table: one optional handler address per interrupt
//! line, in line order, fixed once built.

use vstd::prelude::*;

verus! {

/// Number of interrupt lines.
pub const ISR_COUNT: usize = 30;

/// Handler addresses by interrupt line. It has no method that changes it.
pub struct VectorTable {
    slots: [Option<usize>; ISR_COUNT],
}

impl View for VectorTable {
    type V = Seq<Option<usize>>;

    closed spec fn view(&self) -> Seq<Option<usize>> {
        self.slots@
    }
}

impl VectorTable {
    /// The table whose slot `n` holds `handlers[n]`.
    pub fn new(handlers: [Option<usize>; ISR_COUNT]) -> (r: VectorTable)
        ensures
            r@ == handlers@,
            r@.len() == ISR_COUNT,
    {
        VectorTable { slots: handlers }
    }

    /// Number of slots.
    pub fn len(&self) -> (r: usize)
        ensures
            r == self@.len(),
            r == ISR_COUNT,
    {
        proof {
            lemma_table_size(*self);
        }
        ISR_COUNT
    }

    /// The handler that interrupt line `irq` dispatches to.
    pub fn handler(&self, irq: usize) -> (r: Option<usize>)
        requires
            irq < ISR_COUNT,
        ensures
            r == self@[irq as int],
    {
        proof {
            lemma_table_size(*self);
        }
        self.slots[irq]
    }
}

/// Every table has exactly one slot per interrupt line.
pub proof fn lemma_table_size(t: VectorTable)
    ensures
        t@.len() == ISR_COUNT,
{
}

/// A table built from `handlers` has exactly 30 slots, slot `n` holding
/// `handlers[n]` for every line `n` in order; as no method takes the table
/// mutably, it holds them for as long as it exists.
pub proof fn lemma_table_fixed_order(handlers: [Option<usize>; ISR_COUNT], t: VectorTable)
    requires
        t@ == handlers@,
    ensures
        t@.len() == ISR_COUNT,
        forall|n: int| 0 <= n < ISR_COUNT ==> #[trigger] t@[n] == handlers[n],
{
    lemma_table_size(t);
}

} // verus!
