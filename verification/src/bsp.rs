//! Board support.

pub mod device_driver;
pub mod raspberrypi;
