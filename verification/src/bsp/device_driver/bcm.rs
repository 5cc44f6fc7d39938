//! BCM driver top level.

pub mod bcm_2xxx_gpio;
pub mod bcm_2xxx_pl011_uart;
