//! Registers of 32 bits and the named bit fields in them.
//!
//! A field is a run of neighbouring bits. Reading a field, building the value
//! of a field and merging such a value into a register are done by the
//! `tock-registers` crate; this module states what those operations compute
//! and proves the laws of the model from it.

use vstd::prelude::*;
use crate::types::{BusError, RvData, RvSize};

verus! {

/// The lowest `width` bits set, all of them from 32 bits on.
pub open spec fn low_bits(width: u32) -> u32 {
    if width >= 32 {
        0xffff_ffffu32
    } else {
        !(0xffff_ffffu32 << width)
    }
}

/// What reading the field of mask `mask` at bit `shift` gives for the
/// register value `raw`: the field's bits, moved down to bit zero.
pub open spec fn field_read(mask: u32, shift: u32, raw: u32) -> u32 {
    (raw & (mask << shift)) >> shift
}

/// What merging a field value into the register value `raw` gives: the bits
/// under `fv_mask` are replaced by `fv_value`, the others stay.
pub open spec fn field_modify(fv_mask: u32, fv_value: u32, raw: u32) -> u32 {
    (raw & !fv_mask) | fv_value
}

/// `tock_registers::fields::Field::read`: masks the field's bits out of
/// `raw` and shifts them down. The shift must stay below the register's
/// width, where the outside code would overflow.
#[verifier::external_body]
fn tock_field_read(mask: u32, shift: u32, raw: u32) -> (v: u32)
    requires
        shift < 32,
    ensures
        v == field_read(mask, shift, raw),
{
    tock_registers::fields::Field::<u32, ()>::new(mask, shift as usize).read(raw)
}

/// `tock_registers::fields::Field::is_set`: whether any bit of the field is
/// set in `raw`.
#[verifier::external_body]
fn tock_field_is_set(mask: u32, shift: u32, raw: u32) -> (r: bool)
    requires
        shift < 32,
    ensures
        r == (raw & (mask << shift) != 0),
{
    tock_registers::fields::Field::<u32, ()>::new(mask, shift as usize).is_set(raw)
}

/// `tock_registers::fields::FieldValue::new`: the field's mask and the
/// masked value, both moved up to the field's place. The pair returned is
/// the mask and the value that the outside type then holds.
#[verifier::external_body]
fn tock_field_value(mask: u32, shift: u32, value: u32) -> (r: (u32, u32))
    requires
        shift < 32,
    ensures
        r.0 == mask << shift,
        r.1 == (value & mask) << shift,
{
    let fv = tock_registers::fields::FieldValue::<u32, ()>::new(mask, shift as usize, value);
    (fv.mask(), fv.value)
}

/// `tock_registers::fields::FieldValue::modify`: clears the bits under the
/// mask in `raw` and sets the value's bits. The value lies under the mask, so
/// that the outside type is built from the pair without change.
#[verifier::external_body]
fn tock_field_value_modify(fv_mask: u32, fv_value: u32, raw: u32) -> (v: u32)
    requires
        fv_value & !fv_mask == 0,
    ensures
        v == field_modify(fv_mask, fv_value, raw),
{
    tock_registers::fields::FieldValue::<u32, ()>::new(fv_mask, 0, fv_value).modify(raw)
}

/// `+` on `tock_registers::fields::FieldValue`: the union of the two masks
/// and of the two values. Each value lies under its mask, so that the outside
/// types are built from the pairs without change.
#[verifier::external_body]
fn tock_field_value_add(mask1: u32, value1: u32, mask2: u32, value2: u32) -> (r: (u32, u32))
    requires
        value1 & !mask1 == 0,
        value2 & !mask2 == 0,
    ensures
        r.0 == mask1 | mask2,
        r.1 == value1 | value2,
{
    let fv = tock_registers::fields::FieldValue::<u32, ()>::new(mask1, 0, value1)
        + tock_registers::fields::FieldValue::<u32, ()>::new(mask2, 0, value2);
    (fv.mask(), fv.value)
}

/// A named section of a register: `width` bits from bit `offset` up.
#[derive(Clone, Copy, Debug)]
pub struct Field {
    offset: u32,
    width: u32,
}

impl Field {
    /// The position of the field's lowest bit.
    pub closed spec fn spec_offset(&self) -> u32 {
        self.offset
    }

    /// The number of bits in the field.
    pub closed spec fn spec_width(&self) -> u32 {
        self.width
    }

    /// The field has a bit, and all of its bits lie in the register.
    pub open spec fn wf(&self) -> bool {
        1 <= self.spec_width() && self.spec_offset() + self.spec_width() <= 32
    }

    #[verifier::type_invariant]
    spec fn inv(&self) -> bool {
        self.wf()
    }

    /// The field's mask at bit zero.
    pub open spec fn spec_mask(&self) -> u32 {
        low_bits(self.spec_width())
    }

    /// The field's mask at the field's place in the register.
    pub open spec fn spec_mask_in_place(&self) -> u32 {
        self.spec_mask() << self.spec_offset()
    }

    /// The value of this field in the register value `raw`.
    pub open spec fn spec_read(&self, raw: u32) -> u32 {
        field_read(self.spec_mask(), self.spec_offset(), raw)
    }

    /// Whether two fields share a bit.
    pub open spec fn overlaps(&self, other: Field) -> bool {
        self.spec_mask_in_place() & other.spec_mask_in_place() != 0
    }

    /// The field of `width` bits from bit `offset` up.
    pub closed spec fn spec_new(offset: u32, width: u32) -> Field {
        Field { offset, width }
    }

    /// This field holding `value`, cut to the field's width.
    pub closed spec fn spec_val(&self, value: u32) -> FieldValue {
        FieldValue {
            mask: self.spec_mask_in_place(),
            value: (value & self.spec_mask()) << self.spec_offset(),
        }
    }

    /// The field of `width` bits from bit `offset` up, if there is such a
    /// field in a register of 32 bits.
    pub fn new(offset: u32, width: u32) -> (r: Option<Field>)
        ensures
            r is Some <==> 1 <= width && offset + width <= 32,
            r matches Some(f) ==> f == Field::spec_new(offset, width) && f.wf() && f.spec_offset()
                == offset && f.spec_width() == width,
    {
        if 1 <= width && width <= 32 && offset <= 32 - width {
            Some(Field { offset, width })
        } else {
            None
        }
    }

    /// The position of the field's lowest bit.
    #[verifier::when_used_as_spec(spec_offset)]
    pub fn offset(&self) -> (r: u32)
        ensures
            r == self.spec_offset(),
            self.wf(),
    {
        proof {
            use_type_invariant(self);
        }
        self.offset
    }

    /// The number of bits in the field.
    #[verifier::when_used_as_spec(spec_width)]
    pub fn width(&self) -> (r: u32)
        ensures
            r == self.spec_width(),
            self.wf(),
    {
        proof {
            use_type_invariant(self);
        }
        self.width
    }

    /// The field's mask at bit zero.
    #[verifier::when_used_as_spec(spec_mask)]
    pub fn mask(&self) -> (r: u32)
        ensures
            r == self.spec_mask(),
    {
        if self.width >= 32 {
            0xffff_ffffu32
        } else {
            !(0xffff_ffffu32 << self.width)
        }
    }

    /// Reads this field out of the register value `raw`.
    pub fn read(&self, raw: u32) -> (v: u32)
        ensures
            v == self.spec_read(raw),
            v <= self.spec_mask(),
    {
        proof {
            use_type_invariant(self);
        }
        let v: u32 = tock_field_read(self.mask(), self.offset, raw);
        proof {
            lemma_read_bounded(*self, raw);
        }
        v
    }

    /// Whether any bit of this field is set in the register value `raw`.
    pub fn is_set(&self, raw: u32) -> (r: bool)
        ensures
            r == (raw & self.spec_mask_in_place() != 0),
    {
        proof {
            use_type_invariant(self);
        }
        tock_field_is_set(self.mask(), self.offset, raw)
    }

    /// This field holding `value`. Bits of `value` beyond the field's width
    /// are dropped.
    pub fn val(&self, value: u32) -> (fv: FieldValue)
        ensures
            fv == self.spec_val(value),
            fv.wf(),
            fv.spec_mask() == self.spec_mask_in_place(),
            fv.spec_value() == (value & self.spec_mask()) << self.spec_offset(),
    {
        proof {
            use_type_invariant(self);
        }
        let pair = tock_field_value(self.mask(), self.offset, value);
        proof {
            lemma_field_val(*self, value);
        }
        FieldValue { mask: pair.0, value: pair.1 }
    }
}

/// Values for one or more fields of a register, at their place in it.
#[derive(Clone, Copy, Debug)]
pub struct FieldValue {
    mask: u32,
    value: u32,
}

impl FieldValue {
    /// The bits that this value speaks of.
    pub closed spec fn spec_mask(&self) -> u32 {
        self.mask
    }

    /// The contents of those bits.
    pub closed spec fn spec_value(&self) -> u32 {
        self.value
    }

    /// No bit is set outside the mask.
    pub open spec fn wf(&self) -> bool {
        self.spec_value() & !self.spec_mask() == 0
    }

    #[verifier::type_invariant]
    spec fn inv(&self) -> bool {
        self.wf()
    }

    /// The register value `raw` with this value merged in.
    pub open spec fn spec_modify(&self, raw: u32) -> u32 {
        field_modify(self.spec_mask(), self.spec_value(), raw)
    }

    /// The bits that this value speaks of.
    #[verifier::when_used_as_spec(spec_mask)]
    pub fn mask(&self) -> (r: u32)
        ensures
            r == self.spec_mask(),
    {
        self.mask
    }

    /// The contents of those bits: what a register holds once this value
    /// has been written to it.
    #[verifier::when_used_as_spec(spec_value)]
    pub fn value(&self) -> (r: u32)
        ensures
            r == self.spec_value(),
            self.wf(),
    {
        proof {
            use_type_invariant(self);
        }
        self.value
    }

    /// Merges this value into the register value `raw`: the bits under the
    /// mask are replaced, the others stay.
    pub fn modify(&self, raw: u32) -> (v: u32)
        ensures
            v == self.spec_modify(raw),
    {
        proof {
            use_type_invariant(self);
        }
        tock_field_value_modify(self.mask, self.value, raw)
    }

    /// This value together with `other`: the union of the masks and of the
    /// contents.
    pub closed spec fn spec_combine(&self, other: FieldValue) -> FieldValue {
        FieldValue { mask: self.mask | other.mask, value: self.value | other.value }
    }

    /// This value together with `other`: the union of the masks and of the
    /// contents.
    pub fn combine(self, other: FieldValue) -> (fv: FieldValue)
        ensures
            fv == self.spec_combine(other),
            fv.wf(),
            fv.spec_mask() == self.spec_mask() | other.spec_mask(),
            fv.spec_value() == self.spec_value() | other.spec_value(),
    {
        proof {
            use_type_invariant(&self);
            use_type_invariant(&other);
        }
        let pair = tock_field_value_add(self.mask, self.value, other.mask, other.value);
        proof {
            let (m1, v1, m2, v2) = (self.mask, self.value, other.mask, other.value);
            assert((v1 | v2) & !(m1 | m2) == 0) by (bit_vector)
                requires
                    v1 & !m1 == 0,
                    v2 & !m2 == 0,
            ;
        }
        FieldValue { mask: pair.0, value: pair.1 }
    }
}

/// An enumeration of the values that a field may hold.
pub trait TryFromValue: Sized {
    /// The member that stands for the field value `v`, if there is one.
    spec fn spec_try_from_value(v: u32) -> Option<Self>;

    /// The member that stands for the field value `v`; `None` for a bit
    /// pattern that stands for no member.
    fn try_from_value(v: u32) -> (r: Option<Self>)
        ensures
            r == Self::spec_try_from_value(v),
    ;
}

/// The contents of one register of 32 bits.
#[derive(Clone, Copy, Debug)]
pub struct InMemoryRegister {
    value: u32,
}

impl InMemoryRegister {
    /// The raw value of the register.
    pub closed spec fn spec_get(&self) -> u32 {
        self.value
    }

    /// A register that holds `value`.
    pub fn new(value: u32) -> (r: InMemoryRegister)
        ensures
            r.spec_get() == value,
    {
        InMemoryRegister { value }
    }

    /// The raw value of the register.
    #[verifier::when_used_as_spec(spec_get)]
    pub fn get(&self) -> (v: u32)
        ensures
            v == self.spec_get(),
    {
        self.value
    }

    /// Replaces the raw value of the register.
    pub fn set(&mut self, value: u32)
        ensures
            final(self).get() == value,
    {
        self.value = value;
    }

    /// The value of `field` in the register.
    pub fn read(&self, field: Field) -> (v: u32)
        ensures
            v == field.spec_read(self.get()),
            v <= field.spec_mask(),
    {
        field.read(self.value)
    }

    /// The value of `field` as a member of the enumeration `E`; `None` where
    /// the field's bits stand for no member.
    pub fn read_as_enum<E: TryFromValue>(&self, field: Field) -> (r: Option<E>)
        ensures
            r == E::spec_try_from_value(field.spec_read(self.get())),
    {
        E::try_from_value(field.read(self.value))
    }

    /// Whether any bit of `field` is set in the register.
    pub fn is_set(&self, field: Field) -> (r: bool)
        ensures
            r == (self.get() & field.spec_mask_in_place() != 0),
    {
        field.is_set(self.value)
    }

    /// Writes the fields of `fv` and sets every other bit to zero.
    pub fn write(&mut self, fv: FieldValue)
        ensures
            final(self).get() == fv.spec_value(),
    {
        self.value = fv.value();
    }

    /// Writes the fields of `fv` and leaves every other bit as it is.
    pub fn modify(&mut self, fv: FieldValue)
        ensures
            final(self).get() == fv.spec_modify(old(self).get()),
    {
        self.value = fv.modify(self.value);
    }
}

/// A register that the bus reads and writes as one word.
#[derive(Clone, Copy, Debug)]
pub struct ReadWriteRegister {
    pub reg: InMemoryRegister,
}

impl ReadWriteRegister {
    /// A register that holds `value`.
    pub fn new(value: u32) -> (r: ReadWriteRegister)
        ensures
            r.reg.get() == value,
    {
        ReadWriteRegister { reg: InMemoryRegister::new(value) }
    }

    /// A bus read of the register: its raw value for an access of one word,
    /// an access fault for any other width.
    pub fn read(&self, size: RvSize) -> (r: Result<RvData, BusError>)
        ensures
            size == RvSize::Word ==> r == Ok::<RvData, BusError>(self.reg.get()),
            size != RvSize::Word ==> r == Err::<RvData, BusError>(BusError::LoadAccessFault),
    {
        match size {
            RvSize::Word => Ok(self.reg.get()),
            _ => Err(BusError::LoadAccessFault),
        }
    }

    /// A bus write to the register: an access of one word replaces the raw
    /// value, any other width is an access fault and changes nothing.
    pub fn write(&mut self, size: RvSize, val: RvData) -> (r: Result<(), BusError>)
        ensures
            size == RvSize::Word ==> r == Ok::<(), BusError>(()) && final(self).reg.get() == val,
            size != RvSize::Word ==> r == Err::<(), BusError>(BusError::StoreAccessFault)
                && *final(self) == *old(self),
    {
        match size {
            RvSize::Word => {
                self.reg.set(val);
                Ok(())
            },
            _ => Err(BusError::StoreAccessFault),
        }
    }
}

/// A field that was made from an offset and a width has them.
pub proof fn lemma_field_new(offset: u32, width: u32)
    ensures
        Field::spec_new(offset, width).spec_offset() == offset,
        Field::spec_new(offset, width).spec_width() == width,
{
}

/// The value of a field has the field's mask, and holds what was given, cut
/// to the field's width, at the field's place.
pub proof fn lemma_field_val(f: Field, value: u32)
    requires
        f.wf(),
    ensures
        f.spec_val(value).wf(),
        f.spec_val(value).spec_mask() == f.spec_mask_in_place(),
        f.spec_val(value).spec_value() == (value & f.spec_mask()) << f.spec_offset(),
{
    let m: u32 = f.spec_mask();
    let s: u32 = f.spec_offset();
    assert(((value & m) << s) & !(m << s) == 0) by (bit_vector)
        requires
            s < 32,
    ;
}

/// A field's value is never wider than the field.
pub proof fn lemma_read_bounded(f: Field, raw: u32)
    requires
        f.wf(),
    ensures
        f.spec_read(raw) <= f.spec_mask(),
{
    let m: u32 = f.spec_mask();
    let s: u32 = f.spec_offset();
    assert(((raw & (m << s)) >> s) <= m) by (bit_vector)
        requires
            s < 32,
    ;
}

/// Fields whose bits lie apart share no bit.
pub proof fn lemma_fields_apart(f: Field, g: Field)
    requires
        f.wf(),
        g.wf(),
        f.spec_offset() + f.spec_width() <= g.spec_offset(),
    ensures
        !f.overlaps(g),
        !g.overlaps(f),
{
    let (fo, fw, go, gw) = (f.spec_offset(), f.spec_width(), g.spec_offset(), g.spec_width());
    let fm: u32 = f.spec_mask();
    let gm: u32 = g.spec_mask();
    assert((fm << fo) & (gm << go) == 0 && (gm << go) & (fm << fo) == 0) by (bit_vector)
        requires
            1 <= fw <= 32,
            1 <= gw <= 32,
            fo <= 32 - fw,
            go <= 32 - gw,
            fo + fw <= go,
            fm == (if fw >= 32 {
                0xffff_ffffu32
            } else {
                !(0xffff_ffffu32 << fw)
            }),
            gm == (if gw >= 32 {
                0xffff_ffffu32
            } else {
                !(0xffff_ffffu32 << gw)
            }),
    ;
}

/// Writing a field and reading it back gives the value that was written, cut
/// to the field's width, whatever the register held before.
pub proof fn lemma_read_after_modify(f: Field, value: u32, raw: u32)
    requires
        f.wf(),
    ensures
        f.spec_read(f.spec_val(value).spec_modify(raw)) == value & f.spec_mask(),
{
    let m: u32 = f.spec_mask();
    let s: u32 = f.spec_offset();
    let w: u32 = f.spec_width();
    assert((((raw & !(m << s)) | ((value & m) << s)) & (m << s)) >> s == value & m) by (bit_vector)
        requires
            1 <= w <= 32,
            s <= 32 - w,
            m == (if w >= 32 {
                0xffff_ffffu32
            } else {
                !(0xffff_ffffu32 << w)
            }),
    ;
}

/// Writing a field leaves every field that shares no bit with it as it was.
pub proof fn lemma_modify_keeps_other_fields(f: Field, g: Field, value: u32, raw: u32)
    requires
        f.wf(),
        g.wf(),
        !f.overlaps(g),
    ensures
        g.spec_read(f.spec_val(value).spec_modify(raw)) == g.spec_read(raw),
{
    let fm: u32 = f.spec_mask_in_place();
    let fv: u32 = (value & f.spec_mask()) << f.spec_offset();
    let m: u32 = f.spec_mask();
    let s: u32 = f.spec_offset();
    let gm: u32 = g.spec_mask_in_place();
    let gs: u32 = g.spec_offset();
    assert(fv & !fm == 0) by (bit_vector)
        requires
            fv == (value & m) << s,
            fm == m << s,
            s < 32,
    ;
    assert((((raw & !fm) | fv) & gm) >> gs == (raw & gm) >> gs) by (bit_vector)
        requires
            fm & gm == 0,
            fv & !fm == 0,
    ;
}

/// Values of fields that share no bit can be merged into a register in
/// either order, or at once as their combination: the result is the same.
/// The combination's value is then the sum of the two values.
pub proof fn lemma_modify_order_independent(a: FieldValue, b: FieldValue, raw: u32)
    requires
        a.wf(),
        b.wf(),
        a.spec_mask() & b.spec_mask() == 0,
    ensures
        b.spec_modify(a.spec_modify(raw)) == a.spec_modify(b.spec_modify(raw)),
        b.spec_modify(a.spec_modify(raw)) == a.spec_combine(b).spec_modify(raw),
        a.spec_combine(b).spec_value() == a.spec_value() + b.spec_value(),
{
    let (am, av, bm, bv) = (a.spec_mask(), a.spec_value(), b.spec_mask(), b.spec_value());
    assert({
        &&& (((raw & !am) | av) & !bm) | bv == (((raw & !bm) | bv) & !am) | av
        &&& (((raw & !am) | av) & !bm) | bv == (raw & !(am | bm)) | (av | bv)
        &&& (av | bv) == av + bv
    }) by (bit_vector)
        requires
            av & !am == 0,
            bv & !bm == 0,
            am & bm == 0,
    ;
}

/// Combining field values does not depend on their order or grouping.
pub proof fn lemma_combine_order_independent(a: FieldValue, b: FieldValue, c: FieldValue)
    ensures
        a.spec_combine(b) == b.spec_combine(a),
        a.spec_combine(b).spec_combine(c) == a.spec_combine(b.spec_combine(c)),
{
    let (am, av, bm, bv, cm, cv) = (
        a.spec_mask(),
        a.spec_value(),
        b.spec_mask(),
        b.spec_value(),
        c.spec_mask(),
        c.spec_value(),
    );
    assert({
        &&& am | bm == bm | am
        &&& av | bv == bv | av
        &&& (am | bm) | cm == am | (bm | cm)
        &&& (av | bv) | cv == av | (bv | cv)
    }) by (bit_vector);
}

} // verus!
