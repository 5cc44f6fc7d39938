//! Device driver.

pub mod bcm;
pub mod common;
