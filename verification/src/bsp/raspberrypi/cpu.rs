//! Board code that the architecture needs.

use vstd::prelude::*;

verus! {

/// The core that runs the boot path. The other cores park themselves.
pub const BOOT_CORE_ID: u64 = 0;

} // verus!
