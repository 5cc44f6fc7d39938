//! Hardware-facing core of a small single-image kernel for an ARM64
//! single-board computer: the privilege-level handoff, the device-driver
//! framework, register field arithmetic, the spinlock and the architectural
//! timer.

pub mod bsp;
pub mod console;
pub mod cpu;
pub mod drivers;
pub mod exception;
pub mod panic_wait;
pub mod synchronization;
pub mod time;
pub mod timer;
