//! Synchronous and asynchronous exception handling.

use aarch64_cpu::registers::CurrentEL;
use vstd::prelude::*;

use crate::bsp::device_driver::common::Field64;

pub mod asynchronous;

verus! {

/// Kernel privilege levels.
#[derive(Clone, Copy, Debug, PartialEq, Eq, Structural)]
pub enum PrivilegeLevel {
    User,
    Kernel,
    Hypervisor,
    Unknown,
}

/// The name of exception level 0.
pub const EL0: &'static str = "EL0";

/// The name of exception level 1.
pub const EL1: &'static str = "EL1";

/// The name of exception level 2.
pub const EL2: &'static str = "EL2";

/// The name of a level that the kernel does not know.
pub const UNKNOWN: &'static str = "Unknown";

/// The field `EL` of `aarch64_cpu`'s `CurrentEL`: two bits, from bit 2 up.
#[verifier::external_body]
fn current_el_field() -> (field: Field64)
    ensures
        field == (Field64 { mask: 0b11, shift: 2 }),
{
    let field = CurrentEL::EL;
    Field64 { mask: field.mask, shift: field.shift }
}

/// The exception level that the word `current_el`, read from the register of
/// that name, holds: its bits 3 and 2.
pub open spec fn exception_level(current_el: u64) -> u64 {
    (current_el & (0b11u64 << 2usize)) >> 2usize
}

/// The privilege level of exception level `level`, with the level's name.
pub open spec fn privilege_level(level: u64) -> (PrivilegeLevel, &'static str) {
    if level == 2 {
        (PrivilegeLevel::Hypervisor, EL2)
    } else if level == 1 {
        (PrivilegeLevel::Kernel, EL1)
    } else if level == 0 {
        (PrivilegeLevel::User, EL0)
    } else {
        (PrivilegeLevel::Unknown, UNKNOWN)
    }
}

/// The processing element's current privilege level, from the word that was
/// read from the register `CurrentEL`.
pub fn current_privilege_level(current_el: u64) -> (level: (PrivilegeLevel, &'static str))
    ensures
        level == privilege_level(exception_level(current_el)),
{
    let el = current_el_field().read(current_el);
    if el == 2 {
        (PrivilegeLevel::Hypervisor, EL2)
    } else if el == 1 {
        (PrivilegeLevel::Kernel, EL1)
    } else if el == 0 {
        (PrivilegeLevel::User, EL0)
    } else {
        (PrivilegeLevel::Unknown, UNKNOWN)
    }
}

} // verus!
