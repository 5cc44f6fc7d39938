//! Common device driver code: the arithmetic of register fields.
//!
//! A register is read and written as a whole word. A field is a run of bits
//! in it; a field value says which bits it covers and what they hold. The bit
//! arithmetic is that of the `tock_registers` crate, which the drivers'
//! register accesses go through.

use tock_registers::fields::{Field, FieldValue};
use vstd::prelude::*;

use crate::time::Duration;

verus! {

/// The value of one or more fields of a 32-bit register: the bits covered,
/// and what they hold, both at their place in the register.
#[derive(Clone, Copy, Debug, PartialEq, Eq, Structural)]
pub struct FieldValue32 {
    /// The bits that the fields cover.
    pub mask: u32,
    /// What those bits hold.
    pub value: u32,
}

/// The value of one or more fields of a 64-bit register.
#[derive(Clone, Copy, Debug, PartialEq, Eq, Structural)]
pub struct FieldValue64 {
    /// The bits that the fields cover.
    pub mask: u64,
    /// What those bits hold.
    pub value: u64,
}

/// A field of a 64-bit register: its mask, with the lowest bit set, and how
/// far up the register it lies.
#[derive(Clone, Copy, Debug, PartialEq, Eq, Structural)]
pub struct Field64 {
    /// The mask of the field, not shifted.
    pub mask: u64,
    /// The number of the field's lowest bit.
    pub shift: usize,
}

/// `tock_registers::fields::FieldValue::<u32, ()>::new`, with the mask and
/// the value of what it makes: the mask shifted to the field's place, and the
/// value cut to the mask and shifted likewise. A shift of 32 or more would
/// overflow, so it is left out.
#[verifier::external_body]
fn tock_field_value(mask: u32, shift: usize, value: u32) -> (field: FieldValue32)
    requires
        shift < 32,
    ensures
        field.mask == mask << shift,
        field.value == (value & mask) << shift,
{
    let field = FieldValue::<u32, ()>::new(mask, shift, value);
    FieldValue32 { mask: field.mask(), value: field.value }
}

/// `+` on two `tock_registers::fields::FieldValue<u32, ()>`, each made by
/// `new` at shift 0, which cuts its value to its mask: the union of the masks
/// and of the values.
#[verifier::external_body]
fn tock_combine(a: FieldValue32, b: FieldValue32) -> (both: FieldValue32)
    ensures
        both.mask == a.mask | b.mask,
        both.value == (a.value & a.mask) | (b.value & b.mask),
{
    let both = FieldValue::<u32, ()>::new(a.mask, 0, a.value)
        + FieldValue::<u32, ()>::new(b.mask, 0, b.value);
    FieldValue32 { mask: both.mask(), value: both.value }
}

/// `tock_registers::fields::FieldValue::modify` on a `u32`, for the field
/// value that `new` makes at shift 0, which cuts the value to the mask: the
/// register word with the covered bits replaced by the value.
#[verifier::external_body]
fn tock_modify(field: FieldValue32, word: u32) -> (modified: u32)
    ensures
        modified == (word & !field.mask) | (field.value & field.mask),
{
    FieldValue::<u32, ()>::new(field.mask, 0, field.value).modify(word)
}

/// `tock_registers::fields::FieldValue::matches_all` on a `u32`, for the
/// field value that `new` makes at shift 0, which cuts the value to the mask:
/// whether the covered bits of the register word hold the value.
#[verifier::external_body]
fn tock_matches_all(field: FieldValue32, word: u32) -> (matches: bool)
    ensures
        matches == (word & field.mask == field.value & field.mask),
{
    FieldValue::<u32, ()>::new(field.mask, 0, field.value).matches_all(word)
}

/// `+` on two `tock_registers::fields::FieldValue<u64, ()>`, each made by
/// `new` at shift 0, which cuts its value to its mask: the union of the masks
/// and of the values.
#[verifier::external_body]
fn tock_combine64(a: FieldValue64, b: FieldValue64) -> (both: FieldValue64)
    ensures
        both.mask == a.mask | b.mask,
        both.value == (a.value & a.mask) | (b.value & b.mask),
{
    let both = FieldValue::<u64, ()>::new(a.mask, 0, a.value)
        + FieldValue::<u64, ()>::new(b.mask, 0, b.value);
    FieldValue64 { mask: both.mask(), value: both.value }
}

/// `tock_registers::fields::Field::is_set` on a `u64`: whether any bit of the
/// field is set in the register word. A shift of 64 or more would overflow,
/// so it is left out.
#[verifier::external_body]
fn tock_is_set64(field: Field64, word: u64) -> (set: bool)
    requires
        field.shift < 64,
    ensures
        set == (word & (field.mask << field.shift) != 0),
{
    Field::<u64, ()>::new(field.mask, field.shift).is_set(word)
}

/// `tock_registers::fields::Field::read` on a `u64`: the field's bits of the
/// register word, shifted down. A shift of 64 or more would overflow, so it
/// is left out.
#[verifier::external_body]
fn tock_read64(field: Field64, word: u64) -> (bits: u64)
    requires
        field.shift < 64,
    ensures
        bits == (word & (field.mask << field.shift)) >> field.shift,
{
    Field::<u64, ()>::new(field.mask, field.shift).read(word)
}

impl FieldValue32 {
    /// A field value is tidy where it holds nothing outside the bits it
    /// covers.
    pub open spec fn wf(self) -> bool {
        self.value & !self.mask == 0
    }

    /// The value `value` of the field of `width` bits whose lowest bit is
    /// bit `offset`. Bits of `value` beyond the width are dropped.
    pub fn new(offset: u32, width: u32, value: u32) -> (field: Self)
        requires
            1 <= width,
            offset + width <= 32,
        ensures
            field.mask == low_bits32(width) << offset,
            field.value == (value & low_bits32(width)) << offset,
            field.wf(),
    {
        let mask: u32 = if width == 32 {
            u32::MAX
        } else {
            let top: u32 = 1u32 << width;
            assert(top >= 1) by (bit_vector)
                requires
                    width < 32,
                    top == 1u32 << width,
            ;
            top - 1
        };
        let field = tock_field_value(mask, offset as usize, value);
        assert(((value & mask) << offset) & !(mask << offset) == 0) by (bit_vector)
            requires
                offset < 32,
        ;
        field
    }

    /// Both field values at once. Where they overlap, the bits of both are
    /// set.
    pub fn combine(self, other: FieldValue32) -> (both: Self)
        requires
            self.wf(),
            other.wf(),
        ensures
            both.mask == self.mask | other.mask,
            both.value == self.value | other.value,
            both.wf(),
    {
        let both = tock_combine(self, other);
        let (am, av, bm, bv) = (self.mask, self.value, other.mask, other.value);
        assert((av & am) | (bv & bm) == av | bv && (av | bv) & !(am | bm) == 0) by (bit_vector)
            requires
                av & !am == 0,
                bv & !bm == 0,
        ;
        both
    }

    /// The word that a write of this field value stores: the value, with
    /// zero in every other field.
    pub fn write(self) -> (word: u32)
        ensures
            word == self.value,
    {
        self.value
    }

    /// The word that a read-modify-write stores over `word`: the covered bits
    /// hold the value, the others are kept.
    pub fn modify(self, word: u32) -> (modified: u32)
        requires
            self.wf(),
        ensures
            modified == (word & !self.mask) | self.value,
            modified & self.mask == self.value,
            modified & !self.mask == word & !self.mask,
    {
        let modified = tock_modify(self, word);
        let (m, v) = (self.mask, self.value);
        assert(v & m == v && (((word & !m) | v) & m == v) && (((word & !m) | v) & !m == word & !m))
            by (bit_vector)
            requires
                v & !m == 0,
        ;
        modified
    }

    /// Whether the covered bits of `word` hold the value.
    pub fn matches_all(self, word: u32) -> (matches: bool)
        requires
            self.wf(),
        ensures
            matches == (word & self.mask == self.value),
    {
        let matches = tock_matches_all(self, word);
        let (m, v) = (self.mask, self.value);
        assert(v & m == v) by (bit_vector)
            requires
                v & !m == 0,
        ;
        matches
    }
}

/// The lowest `width` bits set.
pub open spec fn low_bits32(width: u32) -> u32 {
    if width >= 32 {
        0xffff_ffffu32
    } else {
        ((1u32 << width) - 1) as u32
    }
}

impl FieldValue64 {
    /// A field value is tidy where it holds nothing outside the bits it
    /// covers.
    pub open spec fn wf(self) -> bool {
        self.value & !self.mask == 0
    }

    /// Both field values at once. Where they overlap, the bits of both are
    /// set.
    pub fn combine(self, other: FieldValue64) -> (both: Self)
        requires
            self.wf(),
            other.wf(),
        ensures
            both.mask == self.mask | other.mask,
            both.value == self.value | other.value,
            both.wf(),
    {
        let both = tock_combine64(self, other);
        let (am, av, bm, bv) = (self.mask, self.value, other.mask, other.value);
        assert((av & am) | (bv & bm) == av | bv && (av | bv) & !(am | bm) == 0) by (bit_vector)
            requires
                av & !am == 0,
                bv & !bm == 0,
        ;
        both
    }

    /// The word that a write of this field value stores: the value, with
    /// zero in every other field.
    pub fn write(self) -> (word: u64)
        ensures
            word == self.value,
    {
        self.value
    }
}

impl Field64 {
    /// Whether any bit of the field is set in `word`.
    pub fn is_set(self, word: u64) -> (set: bool)
        requires
            self.shift < 64,
        ensures
            set == (word & (self.mask << self.shift) != 0),
    {
        tock_is_set64(self, word)
    }

    /// The field's bits of `word`, shifted down to bit 0.
    pub fn read(self, word: u64) -> (bits: u64)
        requires
            self.shift < 64,
        ensures
            bits == (word & (self.mask << self.shift)) >> self.shift,
    {
        tock_read64(self, word)
    }
}

/// The place of a block of device registers in memory: the address of its
/// first byte and its length in bytes. That a device of this layout answers
/// there is what the caller of `new` knows of the board; nothing checks it.
#[derive(Clone, Copy, Debug, PartialEq, Eq, Structural)]
pub struct MMIODerefWrapper {
    start_addr: usize,
    len: usize,
}

impl MMIODerefWrapper {
    /// The block does not run past the end of the address space.
    pub closed spec fn wf(&self) -> bool {
        self.start_addr + self.len <= usize::MAX
    }

    /// The address of the block's first byte.
    pub closed spec fn start_addr(&self) -> usize {
        self.start_addr
    }

    /// The length of the block in bytes.
    pub closed spec fn len(&self) -> usize {
        self.len
    }

    /// Create an instance, for a block that does not run past the end of the
    /// address space.
    pub fn new(start_addr: usize, len: usize) -> (wrapper: Self)
        requires
            start_addr + len <= usize::MAX,
        ensures
            wrapper.wf(),
            wrapper.start_addr() == start_addr,
            wrapper.len() == len,
    {
        Self { start_addr, len }
    }

    /// The address of the register that lies `offset` bytes into the block.
    pub fn register(&self, offset: usize) -> (address: usize)
        requires
            self.wf(),
            offset < self.len(),
        ensures
            address == self.start_addr() + offset,
    {
        self.start_addr + offset
    }
}

/// One step of a driver's work on its device's registers. Every read and
/// every store is an access to the device: none may be skipped, merged with
/// another or moved past another.
#[derive(Clone, Copy, Debug, PartialEq, Eq, Structural)]
pub enum RegisterOp {
    /// Store `value` in the register at `address`.
    Write { address: usize, value: u32 },
    /// Read the register at `address`, replace the bits that `field` covers
    /// by its value and store the word.
    Modify { address: usize, field: FieldValue32 },
    /// Read the register at `address`, with a no-op in between, for as long
    /// as the bits that `field` covers hold its value.
    SpinWhile { address: usize, field: FieldValue32 },
    /// Busy-wait for at least this span.
    SpinFor(Duration),
}

} // verus!
