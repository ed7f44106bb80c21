//! Register field access model: 32-bit registers, bit-field descriptors with
//! an access mode, read-modify-write setters, action writes that do not read
//! first, chained updates committed in one write, and a bounded poll.

use vstd::prelude::*;

verus! {

/// Who may touch a field.
#[derive(Clone, Copy, PartialEq, Eq, Structural, Debug)]
pub enum Access {
    ReadOnly,
    WriteOnly,
    ReadWrite,
}

impl Access {
    pub open spec fn readable(self) -> bool {
        self != Access::WriteOnly
    }

    pub open spec fn writable(self) -> bool {
        self != Access::ReadOnly
    }
}

/// A bit range `lo .. lo + width` of a register, with its access mode.
#[derive(Clone, Copy, PartialEq, Eq, Structural, Debug)]
pub struct Field {
    pub lo: u32,
    pub width: u32,
    pub access: Access,
}

/// The low `width` bits set.
pub open spec fn low_mask(width: u32) -> u32 {
    if width >= 32 {
        0xffff_ffffu32
    } else {
        ((1u32 << width) - 1u32) as u32
    }
}

/// Value of the field `lo .. lo + width` of `v`.
pub open spec fn field_value(v: u32, lo: u32, width: u32) -> u32 {
    (v >> lo) & low_mask(width)
}

/// `v` with the field `lo .. lo + width` replaced by the low bits of `x`.
pub open spec fn with_field(v: u32, lo: u32, width: u32, x: u32) -> u32 {
    (v & !(low_mask(width) << lo)) | ((x & low_mask(width)) << lo)
}

/// Whether bit `i` of `v` is set.
pub open spec fn bit_set(v: u32, i: u32) -> bool {
    field_value(v, i, 1) == 1
}

impl Field {
    /// The range lies within the 32 bits of a register.
    pub open spec fn wf(self) -> bool {
        1 <= self.width && self.width <= 32 && self.lo < 32 && self.lo + self.width <= 32
    }

    pub open spec fn disjoint(self, other: Field) -> bool {
        self.lo + self.width <= other.lo || other.lo + other.width <= self.lo
    }

    pub open spec fn spec_element(self, i: u32) -> Field {
        Field { lo: (self.lo + i * self.width) as u32, width: self.width, access: self.access }
    }

    /// A field of one bit.
    pub fn bit(lo: u32, access: Access) -> (r: Field)
        requires
            lo < 32,
        ensures
            r == (Field { lo, width: 1, access }),
            r.wf(),
    {
        Field { lo, width: 1, access }
    }

    /// A field of `width` bits from `lo`.
    pub fn range(lo: u32, width: u32, access: Access) -> (r: Field)
        requires
            1 <= width,
            lo + width <= 32,
        ensures
            r == (Field { lo, width, access }),
            r.wf(),
    {
        Field { lo, width, access }
    }

    /// Element `i` of an array field whose element 0 is `self`: the same
    /// width, `i` widths further up.
    pub fn element(self, i: u32) -> (r: Field)
        requires
            self.wf(),
            self.lo + (i + 1) * self.width <= 32,
        ensures
            r == self.spec_element(i),
            r.wf(),
    {
        proof {
            assert(i * self.width <= 32) by (nonlinear_arith)
                requires
                    self.lo + (i + 1) * self.width <= 32,
                    self.width >= 1,
            ;
            assert((i + 1) * self.width == i * self.width + self.width) by (nonlinear_arith);
        }
        Field { lo: self.lo + i * self.width, width: self.width, access: self.access }
    }
}

fn mask(width: u32) -> (r: u32)
    requires
        1 <= width <= 32,
    ensures
        r == low_mask(width),
{
    if width >= 32 {
        0xffff_ffffu32
    } else {
        assert(1u32 << width >= 1) by (bit_vector)
            requires
                width < 32,
        ;
        (1u32 << width) - 1
    }
}

/// Reading the field `lo .. lo + width` after writing `x` there gives the
/// low bits of `x`.
pub proof fn lemma_field_read_back(v: u32, lo: u32, width: u32, x: u32)
    requires
        1 <= width <= 32,
        lo + width <= 32,
    ensures
        field_value(with_field(v, lo, width, x), lo, width) == x & low_mask(width),
{
    let m = low_mask(width);
    assert(m == low_mask(width));
    assert((((v & !(m << lo)) | ((x & m) << lo)) >> lo) & m == x & m) by (bit_vector)
        requires
            1 <= width <= 32,
            lo + width <= 32,
            m == (if width >= 32 { 0xffff_ffffu32 } else { ((1u32 << width) - 1u32) as u32 }),
    ;
}

/// Writing one field leaves every disjoint field as it was.
pub proof fn lemma_field_isolation(v: u32, a: Field, b: Field, x: u32)
    requires
        a.wf(),
        b.wf(),
        a.disjoint(b),
    ensures
        field_value(with_field(v, a.lo, a.width, x), b.lo, b.width) == field_value(v, b.lo, b.width),
{
    let ma = low_mask(a.width);
    let mb = low_mask(b.width);
    let (alo, aw, blo, bw) = (a.lo, a.width, b.lo, b.width);
    assert((((v & !(ma << alo)) | ((x & ma) << alo)) >> blo) & mb == (v >> blo) & mb) by (bit_vector)
        requires
            1 <= aw <= 32,
            alo + aw <= 32,
            1 <= bw <= 32,
            blo + bw <= 32,
            alo + aw <= blo || blo + bw <= alo,
            ma == (if aw >= 32 { 0xffff_ffffu32 } else { ((1u32 << aw) - 1u32) as u32 }),
            mb == (if bw >= 32 { 0xffff_ffffu32 } else { ((1u32 << bw) - 1u32) as u32 }),
    ;
}

/// One 32-bit memory-mapped register. Each access is a load or a store of
/// the whole word, in program order: `read`, `get`, `get_bit` and `modify`
/// load once, `write`, `trigger` and `commit` store once, `set` and
/// `set_bit` load once and then store once, and `wait_for` loads once per
/// poll.
pub struct Reg {
    word: u32,
}

impl View for Reg {
    type V = u32;

    closed spec fn view(&self) -> u32 {
        self.word
    }
}

/// A pending value for one register, built by chaining field setters and
/// stored by a single `Reg::commit`.
#[derive(Clone, Copy, PartialEq, Eq, Structural, Debug)]
pub struct Update {
    pub value: u32,
}

impl Update {
    /// Starts from all bits clear, as for a register whose fields are all
    /// written without reading.
    pub fn zero() -> (r: Update)
        ensures
            r.value == 0,
    {
        Update { value: 0 }
    }

    /// Replaces a writable field with the low bits of `x`.
    pub fn with(self, f: Field, x: u32) -> (r: Update)
        requires
            f.wf(),
            f.access.writable(),
        ensures
            r.value == with_field(self.value, f.lo, f.width, x),
    {
        let m = mask(f.width);
        Update { value: (self.value & !(m << f.lo)) | ((x & m) << f.lo) }
    }

    /// Sets or clears a writable one-bit field.
    pub fn with_bit(self, f: Field, b: bool) -> (r: Update)
        requires
            f.wf(),
            f.width == 1,
            f.access.writable(),
        ensures
            r.value == with_field(self.value, f.lo, 1, if b { 1 } else { 0 }),
    {
        self.with(f, if b { 1 } else { 0 })
    }
}

impl Reg {
    /// A register that holds `v`.
    pub fn new(v: u32) -> (r: Reg)
        ensures
            r@ == v,
    {
        Reg { word: v }
    }

    /// Loads the whole word.
    pub fn read(&self) -> (r: u32)
        ensures
            r == self@,
    {
        self.word
    }

    /// Stores the whole word.
    pub fn write(&mut self, v: u32)
        ensures
            final(self)@ == v,
    {
        self.word = v;
    }

    /// Reads a readable field.
    pub fn get(&self, f: Field) -> (r: u32)
        requires
            f.wf(),
            f.access.readable(),
        ensures
            r == field_value(self@, f.lo, f.width),
    {
        (self.word >> f.lo) & mask(f.width)
    }

    /// Reads a readable one-bit field.
    pub fn get_bit(&self, f: Field) -> (r: bool)
        requires
            f.wf(),
            f.width == 1,
            f.access.readable(),
        ensures
            r == bit_set(self@, f.lo),
    {
        self.get(f) == 1
    }

    /// Read-modify-write of one field: one load, then one store.
    pub fn set(&mut self, f: Field, x: u32)
        requires
            f.wf(),
            f.access == Access::ReadWrite,
        ensures
            final(self)@ == with_field(old(self)@, f.lo, f.width, x),
    {
        let u = self.modify().with(f, x);
        self.commit(u);
    }

    /// Read-modify-write of a one-bit field.
    pub fn set_bit(&mut self, f: Field, b: bool)
        requires
            f.wf(),
            f.width == 1,
            f.access == Access::ReadWrite,
        ensures
            final(self)@ == with_field(old(self)@, f.lo, 1, if b { 1 } else { 0 }),
    {
        self.set(f, if b { 1 } else { 0 });
    }

    /// Action write: stores the field's pattern with all other bits clear,
    /// without reading first. For write-only and self-clearing fields.
    pub fn trigger(&mut self, f: Field, x: u32)
        requires
            f.wf(),
            f.access.writable(),
        ensures
            final(self)@ == with_field(0, f.lo, f.width, x),
    {
        let u = Update::zero().with(f, x);
        self.commit(u);
    }

    /// Starts a chained update from the current contents (one load).
    pub fn modify(&self) -> (r: Update)
        ensures
            r.value == self@,
    {
        Update { value: self.word }
    }

    /// Stores a chained update in one write.
    pub fn commit(&mut self, u: Update)
        ensures
            final(self)@ == u.value,
    {
        self.word = u.value;
    }

    /// Polls a readable one-bit field at most `max_polls` times until it is
    /// set; true when it was seen set.
    pub fn wait_for(&self, f: Field, max_polls: u32) -> (r: bool)
        requires
            f.wf(),
            f.width == 1,
            f.access.readable(),
        ensures
            r == (max_polls > 0 && bit_set(self@, f.lo)),
    {
        let mut n: u32 = 0;
        while n < max_polls
            invariant
                n <= max_polls,
                f.wf(),
                f.width == 1,
                f.access.readable(),
                n > 0 ==> !bit_set(self@, f.lo),
            decreases max_polls - n,
        {
            if self.get_bit(f) {
                return true;
            }
            n = n + 1;
        }
        false
    }
}

/// Fields listed from the lowest bit up, each well formed and ending before
/// the next one begins.
pub open spec fn ascending(fs: Seq<Field>) -> bool {
    &&& forall|i: int| 0 <= i < fs.len() ==> #[trigger] fs[i].wf()
    &&& forall|i: int|
        0 <= i < fs.len() - 1 ==> #[trigger] fs[i].lo + fs[i].width <= fs[i + 1].lo
}

/// No two fields of the list share a bit.
pub open spec fn pairwise_disjoint(fs: Seq<Field>) -> bool {
    forall|i: int, j: int| 0 <= i < j < fs.len() ==> (#[trigger] fs[i]).disjoint(#[trigger] fs[j])
}

proof fn lemma_ascending_ends_before(fs: Seq<Field>, i: int, j: int)
    requires
        ascending(fs),
        0 <= i < j < fs.len(),
    ensures
        fs[i].lo + fs[i].width <= fs[j].lo,
    decreases j - i,
{
    assert(fs[j - 1].lo + fs[j - 1].width <= fs[j].lo);
    if j > i + 1 {
        lemma_ascending_ends_before(fs, i, j - 1);
        assert(fs[j - 1].wf());
    }
}

/// A register layout given from the lowest bit up has no overlapping fields.
pub proof fn lemma_ascending_disjoint(fs: Seq<Field>)
    requires
        ascending(fs),
    ensures
        pairwise_disjoint(fs),
{
    assert forall|i: int, j: int| 0 <= i < j < fs.len() implies (#[trigger] fs[i]).disjoint(
        #[trigger] fs[j],
    ) by {
        lemma_ascending_ends_before(fs, i, j);
    }
}

/// Two different elements of an array field share no bit.
pub proof fn lemma_elements_disjoint(base: Field, i: u32, j: u32)
    requires
        base.wf(),
        i != j,
        base.lo + (i + 1) * base.width <= 32,
        base.lo + (j + 1) * base.width <= 32,
    ensures
        base.spec_element(i).disjoint(base.spec_element(j)),
{
    let w = base.width as int;
    assert(i * w + w == (i + 1) * w) by (nonlinear_arith);
    assert(j * w + w == (j + 1) * w) by (nonlinear_arith);
    if i < j {
        assert((i + 1) * w <= j * w) by (nonlinear_arith)
            requires
                i < j,
                w >= 1,
        ;
    } else {
        assert((j + 1) * w <= i * w) by (nonlinear_arith)
            requires
                j < i,
                w >= 1,
        ;
    }
}

} // verus!
