//! Processor code.

pub mod boot;
