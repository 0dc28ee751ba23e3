//! Typed access to 32-bit peripheral register fields: each field names a
//! bit offset and width inside one register, values are read, composed and
//! modified through those fields only, and each register carries an access
//! class that refuses reads of write-only and writes of read-only cells.

use vstd::prelude::*;

verus! {

/// A named subfield of a 32-bit register: `width` bits starting at bit
/// `offset`.
#[derive(Copy, Clone, PartialEq, Eq, Structural, Debug)]
pub struct Field {
    /// The field's lowest bit position.
    pub offset: u32,
    /// How many bits the field spans.
    pub width: u32,
}

impl Field {
    /// A field that lies inside the register: a nonzero width, ending at
    /// or before bit 32.
    pub open spec fn wf(self) -> bool {
        1 <= self.width && self.offset + self.width <= 32
    }
}

/// The mask of a field's width: that many low bits set.
pub open spec fn spec_width_mask(width: u32) -> u32 {
    if width >= 32 {
        0xffff_ffffu32
    } else {
        ((1u32 << width) - 1) as u32
    }
}

/// The value a register holds in a field: the register shifted down to the
/// field's offset and masked to its width.
pub open spec fn spec_field_read(f: Field, reg: u32) -> u32 {
    (reg >> f.offset) & spec_width_mask(f.width)
}

/// A value placed into a field's bits, truncated to the field's width:
/// what a composite write contributes for this field, all other bits zero.
pub open spec fn spec_field_place(f: Field, v: u32) -> u32 {
    (v & spec_width_mask(f.width)) << f.offset
}

/// A register with one field changed: the field's bits replaced by `v`
/// (truncated to the width), every other bit preserved.
pub open spec fn spec_field_modify(f: Field, reg: u32, v: u32) -> u32 {
    (reg & !(spec_width_mask(f.width) << f.offset)) | spec_field_place(f, v)
}

/// Whether two fields share no bit.
pub open spec fn spec_disjoint(a: Field, b: Field) -> bool {
    a.offset + a.width <= b.offset || b.offset + b.width <= a.offset
}

/// Reading a field just modified gives the value written, truncated to the
/// field's width.
pub proof fn lemma_modify_reads_back(f: Field, reg: u32, v: u32)
    requires
        f.wf(),
    ensures
        spec_field_read(f, spec_field_modify(f, reg, v)) == v & spec_width_mask(f.width),
{
    let o = f.offset;
    let w = f.width;
    if w == 32 {
        assert(o == 0);
        assert(((reg & !(0xffff_ffffu32 << 0)) | ((v & 0xffff_ffffu32) << 0)) >> 0
            & 0xffff_ffffu32 == v & 0xffff_ffffu32) by (bit_vector);
    } else {
        let m = ((1u32 << w) - 1) as u32;
        assert((((reg & !(m << o)) | ((v & m) << o)) >> o) & m == v & m) by (bit_vector)
            requires
                1 <= w < 32,
                o + w <= 32,
                m == ((1u32 << w) - 1) as u32,
        ;
    }
}

/// Modifying one field leaves every disjoint field's value unchanged.
pub proof fn lemma_modify_preserves_disjoint(f: Field, g: Field, reg: u32, v: u32)
    requires
        f.wf(),
        g.wf(),
        spec_disjoint(f, g),
    ensures
        spec_field_read(g, spec_field_modify(f, reg, v)) == spec_field_read(g, reg),
{
    let fo = f.offset;
    let fw = f.width;
    let go = g.offset;
    let gw = g.width;
    let fm = spec_width_mask(fw);
    let gm = spec_width_mask(gw);
    assert((((reg & !(fm << fo)) | ((v & fm) << fo)) >> go) & gm == (reg >> go) & gm)
        by (bit_vector)
        requires
            1 <= fw,
            fo + fw <= 32,
            1 <= gw,
            go + gw <= 32,
            fo + fw <= go || go + gw <= fo,
            fm == (if fw >= 32 { 0xffff_ffffu32 } else { ((1u32 << fw) - 1) as u32 }),
            gm == (if gw >= 32 { 0xffff_ffffu32 } else { ((1u32 << gw) - 1) as u32 }),
    ;
}

/// The access class of a register cell.
#[derive(Copy, Clone, PartialEq, Eq, Structural, Debug)]
pub enum Access {
    /// The cell can be read, never written.
    ReadOnly,
    /// The cell can be written, never read.
    WriteOnly,
    /// The cell can be read and written.
    ReadWrite,
}

/// One 32-bit register cell: its value and its access class. The unit of
/// transfer is the whole 32-bit word; fields narrow what a read or write
/// touches, never how much is transferred.
#[derive(Copy, Clone, PartialEq, Eq, Structural, Debug)]
pub struct Register {
    /// The 32-bit word the cell holds.
    pub value: u32,
    /// What the cell permits.
    pub access: Access,
}

impl Register {
    /// Reads one field; refused on a write-only cell.
    pub fn read(&self, f: Field) -> (r: Option<u32>)
        requires
            f.wf(),
        ensures
            (r == if self.access is WriteOnly {
                None
            } else {
                Some(spec_field_read(f, self.value))
            }),
    {
        match self.access {
            Access::WriteOnly => None,
            _ => Some(field_read(f, self.value)),
        }
    }

    /// Writes a whole word composed of the given fields, every unnamed bit
    /// zero; refused (and the cell untouched) on a read-only cell. Returns
    /// whether the write was accepted.
    pub fn write(&mut self, fields: &Vec<(Field, u32)>) -> (accepted: bool)
        requires
            forall|i: int|
                0 <= i < fields@.len() ==> (#[trigger] fields@[i]).0.wf(),
        ensures
            accepted == !(old(self).access is ReadOnly),
            final(self).access == old(self).access,
            (accepted ==> final(self).value == spec_compose(fields@)),
            (!accepted ==> final(self).value == old(self).value),
    {
        match self.access {
            Access::ReadOnly => false,
            _ => {
                self.value = compose(fields);
                true
            },
        }
    }

    /// Read-modify-writes the given fields, preserving every bit they do
    /// not name; refused on read-only and write-only cells (a cell that
    /// cannot be read back cannot be modified). Returns whether the modify
    /// was accepted.
    pub fn modify(&mut self, fields: &Vec<(Field, u32)>) -> (accepted: bool)
        requires
            forall|i: int|
                0 <= i < fields@.len() ==> (#[trigger] fields@[i]).0.wf(),
        ensures
            accepted == (old(self).access is ReadWrite),
            final(self).access == old(self).access,
            (accepted ==> final(self).value == spec_modify_all(old(self).value, fields@)),
            (!accepted ==> final(self).value == old(self).value),
    {
        match self.access {
            Access::ReadWrite => {
                self.value = modify_all(self.value, fields);
                true
            },
            _ => false,
        }
    }

    /// Whether a field reads as any nonzero value; refused on a write-only
    /// cell.
    pub fn is_set(&self, f: Field) -> (r: Option<bool>)
        requires
            f.wf(),
        ensures
            (r == if self.access is WriteOnly {
                None
            } else {
                Some(spec_field_read(f, self.value) != 0)
            }),
    {
        match self.read(f) {
            Some(v) => Some(v != 0),
            None => None,
        }
    }
}

/// Computes the mask of a field's width.
pub fn width_mask(width: u32) -> (r: u32)
    requires
        1 <= width <= 32,
    ensures
        r == spec_width_mask(width),
{
    if width >= 32 {
        0xffff_ffffu32
    } else {
        proof {
            assert((1u32 << width) >= 1) by (bit_vector)
                requires
                    width < 32,
            ;
        }
        (1u32 << width) - 1
    }
}

/// Reads one field out of a register word.
pub fn field_read(f: Field, reg: u32) -> (r: u32)
    requires
        f.wf(),
    ensures
        r == spec_field_read(f, reg),
{
    let mask = width_mask(f.width);
    (reg >> f.offset) & mask
}

/// Places a value into a field's bits.
pub fn field_place(f: Field, v: u32) -> (r: u32)
    requires
        f.wf(),
    ensures
        r == spec_field_place(f, v),
{
    let mask = width_mask(f.width);
    (v & mask) << f.offset
}

/// The word a composite write of the given fields produces: each value
/// placed into its field, unnamed bits zero.
pub open spec fn spec_compose(fields: Seq<(Field, u32)>) -> u32
    decreases fields.len(),
{
    if fields.len() == 0 {
        0u32
    } else {
        spec_compose(fields.drop_last()) | spec_field_place(
            fields.last().0,
            fields.last().1,
        )
    }
}

/// Composes a word from field values.
pub fn compose(fields: &Vec<(Field, u32)>) -> (r: u32)
    requires
        forall|i: int|
            0 <= i < fields@.len() ==> (#[trigger] fields@[i]).0.wf(),
    ensures
        r == spec_compose(fields@),
{
    let n = fields.len();
    let mut acc: u32 = 0;
    let mut i: usize = 0;
    while i < n
        invariant
            i <= n,
            n == fields@.len(),
            forall|j: int| 0 <= j < n ==> (#[trigger] fields@[j]).0.wf(),
            acc == spec_compose(fields@.subrange(0, i as int)),
        decreases n - i,
    {
        let (f, v) = fields[i];
        acc = acc | field_place(f, v);
        proof {
            assert(fields@.subrange(0, i + 1).drop_last() =~= fields@.subrange(0, i as int));
            assert(fields@.subrange(0, i + 1).last() == fields@[i as int]);
        }
        i = i + 1;
    }
    proof {
        assert(fields@.subrange(0, n as int) =~= fields@);
    }
    acc
}

/// A register word with each of the given fields replaced in turn, bits
/// outside them preserved.
pub open spec fn spec_modify_all(reg: u32, fields: Seq<(Field, u32)>) -> u32
    decreases fields.len(),
{
    if fields.len() == 0 {
        reg
    } else {
        spec_field_modify(
            fields.last().0,
            spec_modify_all(reg, fields.drop_last()),
            fields.last().1,
        )
    }
}

/// Replaces the given fields of a register word, preserving the rest.
pub fn modify_all(reg: u32, fields: &Vec<(Field, u32)>) -> (r: u32)
    requires
        forall|i: int|
            0 <= i < fields@.len() ==> (#[trigger] fields@[i]).0.wf(),
    ensures
        r == spec_modify_all(reg, fields@),
{
    let n = fields.len();
    let mut acc: u32 = reg;
    let mut i: usize = 0;
    while i < n
        invariant
            i <= n,
            n == fields@.len(),
            forall|j: int| 0 <= j < n ==> (#[trigger] fields@[j]).0.wf(),
            acc == spec_modify_all(reg, fields@.subrange(0, i as int)),
        decreases n - i,
    {
        let (f, v) = fields[i];
        let mask = width_mask(f.width);
        acc = (acc & !(mask << f.offset)) | field_place(f, v);
        proof {
            assert(fields@.subrange(0, i + 1).drop_last() =~= fields@.subrange(0, i as int));
            assert(fields@.subrange(0, i + 1).last() == fields@[i as int]);
        }
        i = i + 1;
    }
    proof {
        assert(fields@.subrange(0, n as int) =~= fields@);
    }
    acc
}

} // verus!
