//! The guard of the panic handler against panics that occur while it runs.

use vstd::prelude::*;

verus! {

/// How the panic handler was entered.
#[derive(Clone, Copy, Debug, PartialEq, Eq, Structural)]
pub enum PanicEntry {
    /// No panic was being handled: report this one, then halt.
    First,
    /// A panic is being handled already: halt at once, without a report.
    Reentered,
}

/// What the entry into the panic handler is, by whether a panic was being
/// handled.
pub open spec fn panic_entry(currently_panic: bool) -> PanicEntry {
    if currently_panic {
        PanicEntry::Reentered
    } else {
        PanicEntry::First
    }
}

/// Stops a panic from being handled while another is: marks the kernel as
/// panicking and says whether it was already.
pub fn panic_prevent_reenter(currently_panic: &mut bool) -> (entry: PanicEntry)
    ensures
        *final(currently_panic),
        entry == panic_entry(*old(currently_panic)),
{
    if !*currently_panic {
        *currently_panic = true;
        return PanicEntry::First;
    }
    PanicEntry::Reentered
}

} // verus!
