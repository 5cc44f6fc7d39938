//! Asynchronous exception handling: the state of the exception masks.

use aarch64_cpu::registers::DAIF;
use vstd::prelude::*;

use crate::bsp::device_driver::common::Field64;

verus! {

/// The kinds of asynchronous exceptions that the processor can mask.
#[derive(Clone, Copy, Debug, PartialEq, Eq, Structural)]
pub enum Exception {
    /// Watchpoint, breakpoint and software step exceptions.
    Debug,
    /// System errors.
    SError,
    /// Interrupt requests.
    IRQ,
    /// Fast interrupt requests.
    FIQ,
}

/// The mask bits of the register `DAIF`, one field for each kind.
pub struct DaifFields {
    pub debug: Field64,
    pub serror: Field64,
    pub irq: Field64,
    pub fiq: Field64,
}

/// How a masked exception is reported.
pub const MASKED: &'static str = "Masked";

/// How an exception that is not masked is reported.
pub const UNMASKED: &'static str = "Unmasked";

/// The fields `D`, `A`, `I` and `F` of `aarch64_cpu`'s `DAIF`: one bit each,
/// at bits 9, 8, 7 and 6.
#[verifier::external_body]
fn daif_fields() -> (fields: DaifFields)
    ensures
        fields.debug == (Field64 { mask: 1, shift: 9 }),
        fields.serror == (Field64 { mask: 1, shift: 8 }),
        fields.irq == (Field64 { mask: 1, shift: 7 }),
        fields.fiq == (Field64 { mask: 1, shift: 6 }),
{
    DaifFields {
        debug: Field64 { mask: DAIF::D.mask, shift: DAIF::D.shift },
        serror: Field64 { mask: DAIF::A.mask, shift: DAIF::A.shift },
        irq: Field64 { mask: DAIF::I.mask, shift: DAIF::I.shift },
        fiq: Field64 { mask: DAIF::F.mask, shift: DAIF::F.shift },
    }
}

/// The number of the bit of `DAIF` that masks exceptions of kind `kind`.
pub open spec fn mask_bit(kind: Exception) -> usize {
    match kind {
        Exception::Debug => 9,
        Exception::SError => 8,
        Exception::IRQ => 7,
        Exception::FIQ => 6,
    }
}

/// Whether the word `daif` has exceptions of kind `kind` masked.
pub open spec fn masked(kind: Exception, daif: u64) -> bool {
    daif & (1u64 << mask_bit(kind)) != 0
}

/// How the mask state `is_masked` is reported.
pub open spec fn mask_str(is_masked: bool) -> &'static str {
    if is_masked {
        MASKED
    } else {
        UNMASKED
    }
}

/// The field of `DAIF` that masks exceptions of kind `kind`.
pub fn daif_field(kind: Exception) -> (field: Field64)
    ensures
        field == (Field64 { mask: 1, shift: mask_bit(kind) }),
{
    let fields = daif_fields();
    match kind {
        Exception::Debug => fields.debug,
        Exception::SError => fields.serror,
        Exception::IRQ => fields.irq,
        Exception::FIQ => fields.fiq,
    }
}

/// Whether exceptions of kind `kind` are masked, by the word `daif` that was
/// read from the register of that name.
pub fn is_masked(kind: Exception, daif: u64) -> (is_masked: bool)
    ensures
        is_masked == masked(kind, daif),
{
    daif_field(kind).is_set(daif)
}

/// The state of the four exception masks, as it is reported.
#[derive(Clone, Copy, Debug, PartialEq, Eq)]
pub struct MaskState {
    pub debug: &'static str,
    pub serror: &'static str,
    pub irq: &'static str,
    pub fiq: &'static str,
}

/// The state of the exception masks to print, by the word `daif` that was
/// read from the register of that name.
pub fn print_state(daif: u64) -> (state: MaskState)
    ensures
        state.debug == mask_str(masked(Exception::Debug, daif)),
        state.serror == mask_str(masked(Exception::SError, daif)),
        state.irq == mask_str(masked(Exception::IRQ, daif)),
        state.fiq == mask_str(masked(Exception::FIQ, daif)),
{
    MaskState {
        debug: to_mask_str(is_masked(Exception::Debug, daif)),
        serror: to_mask_str(is_masked(Exception::SError, daif)),
        irq: to_mask_str(is_masked(Exception::IRQ, daif)),
        fiq: to_mask_str(is_masked(Exception::FIQ, daif)),
    }
}

/// How the mask state `is_masked` is reported.
pub fn to_mask_str(is_masked: bool) -> (text: &'static str)
    ensures
        text == mask_str(is_masked),
{
    if is_masked {
        MASKED
    } else {
        UNMASKED
    }
}

} // verus!
