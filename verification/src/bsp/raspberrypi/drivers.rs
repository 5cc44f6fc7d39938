//! The board's drivers, and the one-time set-up of the driver subsystem.

use vstd::prelude::*;

use crate::bsp::device_driver::bcm::bcm_2xxx_gpio::{map_pl011_uart_ops, GPIO};
use crate::bsp::device_driver::common::RegisterOp;
use crate::console::interface::All;
use crate::console::{register_console, ActiveConsole, ConsoleRegistry};
use crate::drivers::interface::{DeviceDriver, DeviceDriverPostInitCallback};
use crate::drivers::{DeviceDriverDescriptor, DriverManager, NUM_DRIVERS};

verus! {

/// What `init` answers when the driver subsystem has been set up before.
pub const INIT_ALREADY_DONE: &'static str = "Init already done";

/// The step after the UART's `init`: the UART becomes the console.
pub fn post_init_uart<K: All + Copy>(registry: &mut ConsoleRegistry<K>, uart: K) -> (r: Result<
    (),
    &'static str,
>)
    ensures
        r.is_ok(),
        final(registry)@ == ActiveConsole::Registered(uart),
{
    register_console(registry, uart);
    Ok(())
}

/// The step after the GPIO driver's `init`: the steps that route the UART to
/// its pins.
pub fn post_init_gpio(gpio: &mut GPIO) -> (r: Result<Vec<RegisterOp>, &'static str>)
    requires
        old(gpio).wf(),
    ensures
        final(gpio).wf(),
        final(gpio).start_addr() == old(gpio).start_addr(),
        r matches Ok(ops) && ops@ == map_pl011_uart_ops(old(gpio).start_addr()),
{
    Ok(gpio.map_pl011_uart())
}

/// Registers the UART driver, with the step that makes it the console.
pub fn driver_uart<D: DeviceDriver + Copy, C: DeviceDriverPostInitCallback + Copy>(
    manager: &mut DriverManager<D, C>,
    uart: D,
    post_init_uart: C,
) -> (r: Result<(), &'static str>)
    requires
        old(manager).wf(),
        old(manager)@.len() < NUM_DRIVERS,
    ensures
        r.is_ok(),
        final(manager).wf(),
        final(manager)@ == old(manager)@.push(descriptor(uart, post_init_uart)),
{
    let uart_descriptor = DeviceDriverDescriptor::new(uart, Some(post_init_uart));
    manager.register_driver(uart_descriptor);
    Ok(())
}

/// Registers the GPIO driver, with the step that routes the UART to its pins.
pub fn driver_gpio<D: DeviceDriver + Copy, C: DeviceDriverPostInitCallback + Copy>(
    manager: &mut DriverManager<D, C>,
    gpio: D,
    post_init_gpio: C,
) -> (r: Result<(), &'static str>)
    requires
        old(manager).wf(),
        old(manager)@.len() < NUM_DRIVERS,
    ensures
        r.is_ok(),
        final(manager).wf(),
        final(manager)@ == old(manager)@.push(descriptor(gpio, post_init_gpio)),
{
    let gpio_descriptor = DeviceDriverDescriptor::new(gpio, Some(post_init_gpio));
    manager.register_driver(gpio_descriptor);
    Ok(())
}

/// The descriptor of `driver` with the post-init callback `callback`.
pub open spec fn descriptor<D: DeviceDriver + Copy, C: DeviceDriverPostInitCallback + Copy>(
    driver: D,
    callback: C,
) -> DeviceDriverDescriptor<D, C> {
    DeviceDriverDescriptor::spec_new(driver, Some(callback))
}

/// What the driver subsystem holds after `init`, by what it held before: the
/// UART and the GPIO driver behind the drivers that were there, the first
/// time, and what was there, every other time.
pub open spec fn registry_after_init<D: DeviceDriver + Copy, C: DeviceDriverPostInitCallback + Copy>(
    init_done: bool,
    registry: Seq<DeviceDriverDescriptor<D, C>>,
    uart: DeviceDriverDescriptor<D, C>,
    gpio: DeviceDriverDescriptor<D, C>,
) -> Seq<DeviceDriverDescriptor<D, C>> {
    if init_done {
        registry
    } else {
        registry.push(uart).push(gpio)
    }
}

/// What `init` answers, by whether it has run before.
pub open spec fn init_result(init_done: bool) -> Result<(), &'static str> {
    if init_done {
        Err(INIT_ALREADY_DONE)
    } else {
        Ok(())
    }
}

/// Initializes the driver subsystem: registers the UART, then the GPIO
/// driver. This is done once: a further call is refused, and registers
/// nothing.
pub fn init<D: DeviceDriver + Copy, C: DeviceDriverPostInitCallback + Copy>(
    init_done: &mut bool,
    manager: &mut DriverManager<D, C>,
    uart: (D, C),
    gpio: (D, C),
) -> (r: Result<(), &'static str>)
    requires
        old(manager).wf(),
        !*old(init_done) ==> old(manager)@.len() + 2 <= NUM_DRIVERS,
    ensures
        r == init_result(*old(init_done)),
        *final(init_done),
        final(manager).wf(),
        final(manager)@ == registry_after_init(
            *old(init_done),
            old(manager)@,
            descriptor(uart.0, uart.1),
            descriptor(gpio.0, gpio.1),
        ),
{
    if *init_done {
        return Err(INIT_ALREADY_DONE);
    }
    let _ = driver_uart(manager, uart.0, uart.1);
    let _ = driver_gpio(manager, gpio.0, gpio.1);
    *init_done = true;
    Ok(())
}

/// Setting the driver subsystem up a second time fails, whatever the first
/// time did, and leaves the registry as the first time left it.
pub proof fn lemma_second_init_is_refused<
    D: DeviceDriver + Copy,
    C: DeviceDriverPostInitCallback + Copy,
>(
    init_done: bool,
    registry: Seq<DeviceDriverDescriptor<D, C>>,
    uart: DeviceDriverDescriptor<D, C>,
    gpio: DeviceDriverDescriptor<D, C>,
)
    ensures
        init_result(true) == Err::<(), &'static str>(INIT_ALREADY_DONE),
        registry_after_init(true, registry_after_init(init_done, registry, uart, gpio), uart, gpio)
            == registry_after_init(init_done, registry, uart, gpio),
{
}

} // verus!
