//! Watchdog timer control: enable, disable and feed.

use vstd::prelude::*;
use crate::register::{
    ascending, lemma_ascending_disjoint, pairwise_disjoint, with_field, Access, Field, Reg, Update,
};

verus! {

/// Watchdog register block.
pub struct Wdc {
    /// Control register (write-only): restart bit 0, key in bits 24..31.
    pub cr: Reg,
    /// Mode register: disable bit 15.
    pub mr: Reg,
}

/// Byte offsets of the watchdog registers from the block's base address.
pub const CR_OFFSET: u32 = 0x0;
pub const MR_OFFSET: u32 = 0x4;

/// Password that the control register demands with a restart.
pub const WDT_CR_KEY: u32 = 0xa5;
pub const CR_WDRSTT: u32 = 0;
pub const CR_KEY_LO: u32 = 24;
pub const MR_WDDIS: u32 = 15;

/// Control register word that restarts the watchdog.
pub open spec fn feed_word() -> u32 {
    with_field(with_field(0, CR_WDRSTT, 1, 1), CR_KEY_LO, 8, WDT_CR_KEY)
}

impl Wdc {
    /// A block with both registers clear.
    pub fn new() -> (r: Wdc)
        ensures
            r.cr@ == 0,
            r.mr@ == 0,
    {
        Wdc { cr: Reg::new(0), mr: Reg::new(0) }
    }
}

/// Enables the watchdog timer: clears the disable bit.
pub fn watchdog_enable(wdc: &mut Wdc)
    ensures
        final(wdc).mr@ == with_field(old(wdc).mr@, MR_WDDIS, 1, 0),
        final(wdc).cr@ == old(wdc).cr@,
{
    wdc.mr.set_bit(Field::bit(MR_WDDIS, Access::ReadWrite), false);
}

/// Disables the watchdog timer: sets the disable bit.
pub fn watchdog_disable(wdc: &mut Wdc)
    ensures
        final(wdc).mr@ == with_field(old(wdc).mr@, MR_WDDIS, 1, 1),
        final(wdc).cr@ == old(wdc).cr@,
{
    wdc.mr.set_bit(Field::bit(MR_WDDIS, Access::ReadWrite), true);
}

/// Restarts the watchdog: restart bit and key in one write.
pub fn watchdog_feed(wdc: &mut Wdc)
    ensures
        final(wdc).cr@ == feed_word(),
        final(wdc).mr@ == old(wdc).mr@,
{
    let u = Update::zero().with_bit(Field::bit(CR_WDRSTT, Access::WriteOnly), true).with(
        Field::range(CR_KEY_LO, 8, Access::WriteOnly),
        WDT_CR_KEY,
    );
    wdc.cr.commit(u);
}

/// Fields of the control register, from bit 0 up.
pub open spec fn cr_fields() -> Seq<Field> {
    seq![
        Field { lo: CR_WDRSTT, width: 1, access: Access::WriteOnly },
        Field { lo: CR_KEY_LO, width: 8, access: Access::WriteOnly },
    ]
}

/// Fields of the mode register.
pub open spec fn mr_fields() -> Seq<Field> {
    seq![Field { lo: MR_WDDIS, width: 1, access: Access::ReadWrite }]
}

/// Neither watchdog register has overlapping fields.
pub proof fn lemma_wdc_layout()
    ensures
        pairwise_disjoint(cr_fields()),
        pairwise_disjoint(mr_fields()),
{
    assert(ascending(cr_fields()));
    lemma_ascending_disjoint(cr_fields());
}

} // verus!
