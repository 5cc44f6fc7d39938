//! Architectural boot code: what the boot core stores in the system registers
//! before it drops from EL2, the hypervisor level, to EL1, the kernel level.

use aarch64_cpu::registers::{CNTHCTL_EL2, HCR_EL2, SPSR_EL2};
use vstd::prelude::*;

use crate::bsp::device_driver::common::FieldValue64;

verus! {

/// The field values of `CNTHCTL_EL2` that let EL1 use the physical timer and
/// the physical counter.
pub struct TimerAccess {
    /// EL1 may access the physical timer registers.
    pub timer: FieldValue64,
    /// EL1 may access the physical counter register.
    pub counter: FieldValue64,
}

/// The field values of `SPSR_EL2` that describe the state to return to.
pub struct SavedState {
    /// Debug exceptions are not masked.
    pub debug_unmasked: FieldValue64,
    /// SError interrupts are not masked.
    pub serror_unmasked: FieldValue64,
    /// IRQs are not masked.
    pub irq_unmasked: FieldValue64,
    /// FIQs are not masked.
    pub fiq_unmasked: FieldValue64,
    /// EL1, on its own stack pointer.
    pub el1h: FieldValue64,
}

/// `EL1PCEN::SET` and `EL1PCTEN::SET` of `aarch64_cpu`'s `CNTHCTL_EL2`: bit 1
/// and bit 0, each set.
#[verifier::external_body]
fn cnthctl_el2_timer_access() -> (access: TimerAccess)
    ensures
        access.timer == (FieldValue64 { mask: 0b10, value: 0b10 }),
        access.counter == (FieldValue64 { mask: 0b01, value: 0b01 }),
{
    let timer = CNTHCTL_EL2::EL1PCEN::SET;
    let counter = CNTHCTL_EL2::EL1PCTEN::SET;
    TimerAccess {
        timer: FieldValue64 { mask: timer.mask(), value: timer.value },
        counter: FieldValue64 { mask: counter.mask(), value: counter.value },
    }
}

/// `RW::EL1IsAarch64` of `aarch64_cpu`'s `HCR_EL2`: bit 31, set.
#[verifier::external_body]
fn hcr_el2_el1_is_aarch64() -> (field: FieldValue64)
    ensures
        field == (FieldValue64 { mask: 0x8000_0000, value: 0x8000_0000 }),
{
    let field = HCR_EL2::RW::EL1IsAarch64;
    FieldValue64 { mask: field.mask(), value: field.value }
}

/// `D::Unmasked`, `A::Unmasked`, `I::Unmasked`, `F::Unmasked` and `M::EL1h`
/// of `aarch64_cpu`'s `SPSR_EL2`: bits 9, 8, 7 and 6, each clear, and bits 3
/// to 0 holding 5.
#[verifier::external_body]
fn spsr_el2_saved_state() -> (state: SavedState)
    ensures
        state.debug_unmasked == (FieldValue64 { mask: 0x200, value: 0 }),
        state.serror_unmasked == (FieldValue64 { mask: 0x100, value: 0 }),
        state.irq_unmasked == (FieldValue64 { mask: 0x80, value: 0 }),
        state.fiq_unmasked == (FieldValue64 { mask: 0x40, value: 0 }),
        state.el1h == (FieldValue64 { mask: 0xf, value: 0x5 }),
{
    let (d, a) = (SPSR_EL2::D::Unmasked, SPSR_EL2::A::Unmasked);
    let (i, f) = (SPSR_EL2::I::Unmasked, SPSR_EL2::F::Unmasked);
    let m = SPSR_EL2::M::EL1h;
    SavedState {
        debug_unmasked: FieldValue64 { mask: d.mask(), value: d.value },
        serror_unmasked: FieldValue64 { mask: a.mask(), value: a.value },
        irq_unmasked: FieldValue64 { mask: i.mask(), value: i.value },
        fiq_unmasked: FieldValue64 { mask: f.mask(), value: f.value },
        el1h: FieldValue64 { mask: m.mask(), value: m.value },
    }
}

/// What the boot core stores, register by register, before the exception
/// return that lands in EL1.
#[derive(Clone, Copy, Debug, PartialEq, Eq, Structural)]
pub struct El2ToEl1Transition {
    /// `CNTHCTL_EL2`: the timer and the counter are usable from EL1.
    pub cnthctl_el2: u64,
    /// `CNTVOFF_EL2`: the virtual counter has no offset to the physical one.
    pub cntvoff_el2: u64,
    /// `HCR_EL2`: EL1 executes in AArch64.
    pub hcr_el2: u64,
    /// `SPSR_EL2`: the state to return to.
    pub spsr_el2: u64,
    /// `ELR_EL2`: the address to return to.
    pub elr_el2: u64,
    /// `SP_EL1`: the stack pointer of EL1.
    pub sp_el1: u64,
}

/// Prepares the transition from EL2 to EL1.
///
/// EL1 gets the timer and the counter, with no counter offset, and runs in
/// AArch64. The exception return lands at `kernel_init`, in EL1 on its own
/// stack pointer, with no exception masked, and the stack of EL1 ends at
/// `phys_boot_core_stack_end_exclusive_addr`.
pub fn prep_el2_to_el1_trans(
    phys_boot_core_stack_end_exclusive_addr: u64,
    kernel_init: u64,
) -> (transition: El2ToEl1Transition)
    ensures
        transition == (El2ToEl1Transition {
            cnthctl_el2: 0b11,
            cntvoff_el2: 0,
            hcr_el2: 0x8000_0000,
            spsr_el2: 0b0101,
            elr_el2: kernel_init,
            sp_el1: phys_boot_core_stack_end_exclusive_addr,
        }),
{
    let access = cnthctl_el2_timer_access();
    let state = spsr_el2_saved_state();
    assert(0b10u64 & !0b10u64 == 0 && 0b01u64 & !0b01u64 == 0 && 0b10u64 | 0b01u64 == 0b11u64)
        by (bit_vector);
    assert(0u64 & !0x200u64 == 0 && 0u64 & !0x100u64 == 0 && 0u64 & !0x80u64 == 0 && 0u64
        & !0x40u64 == 0 && 0x5u64 & !0xfu64 == 0) by (bit_vector);
    assert(0u64 | 0u64 == 0 && 0u64 | 0x5u64 == 0x5u64) by (bit_vector);
    assert((0x200u64 | 0x100u64) == 0x300u64 && (0x300u64 | 0x80u64) == 0x380u64 && (0x380u64
        | 0x40u64) == 0x3c0u64 && 0u64 & !0x300u64 == 0 && 0u64 & !0x380u64 == 0 && 0u64
        & !0x3c0u64 == 0) by (bit_vector);
    let cnthctl_el2 = access.timer.combine(access.counter);
    let spsr_el2 = state.debug_unmasked.combine(state.serror_unmasked).combine(
        state.irq_unmasked,
    ).combine(state.fiq_unmasked).combine(state.el1h);
    El2ToEl1Transition {
        cnthctl_el2: cnthctl_el2.write(),
        cntvoff_el2: 0,
        hcr_el2: hcr_el2_el1_is_aarch64().write(),
        spsr_el2: spsr_el2.write(),
        elr_el2: kernel_init,
        sp_el1: phys_boot_core_stack_end_exclusive_addr,
    }
}

} // verus!
