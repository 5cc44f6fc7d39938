//! Board support for the Raspberry Pi 3.

use vstd::prelude::*;

pub mod cpu;
pub mod drivers;

verus! {

/// The name of the board.
pub const BOARD_NAME: &'static str = "Raspberry Pi 3";

/// Board identification.
pub fn board_name() -> (name: &'static str)
    ensures
        name == BOARD_NAME,
{
    BOARD_NAME
}

} // verus!
