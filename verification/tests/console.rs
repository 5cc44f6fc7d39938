use std::cell::Cell;

use my_os::console::interface::{All, Read, Stats, Write};
use my_os::console::null_console::NullConsole;
use my_os::console::{console, register_console, ActiveConsole, ConsoleRegistry};
use my_os::drivers::interface::{DeviceDriver, DeviceDriverPostInitCallback};
use my_os::drivers::DriverManager;

struct Device {
    id: u8,
    written: Cell<usize>,
    pending: Cell<char>,
    flushed: Cell<bool>,
    cleared: Cell<bool>,
}

impl Write for Device {
    fn write_char(&self, _c: char) {
        self.written.set(self.written.get() + 1);
    }

    fn write_fmt(&self, _args: core::fmt::Arguments) -> core::fmt::Result {
        Err(core::fmt::Error)
    }

    fn flush(&self) {
        self.flushed.set(true);
    }
}

impl Read for Device {
    fn read_char(&self) -> char {
        self.pending.get()
    }

    fn clear_rx(&self) {
        self.cleared.set(true);
    }
}

impl Stats for Device {
    fn chars_written(&self) -> usize {
        self.written.get()
    }
}

impl All for Device {}

fn device(id: u8, pending: char) -> &'static Device {
    Box::leak(Box::new(Device {
        id,
        written: Cell::new(0),
        pending: Cell::new(pending),
        flushed: Cell::new(false),
        cleared: Cell::new(false),
    }))
}

#[test]
fn the_null_console_discards_and_reads_a_space() {
    let null = NullConsole;
    null.write_char('x');
    null.flush();
    null.clear_rx();
    assert_eq!(null.read_char(), ' ');
    assert_eq!(null.chars_written(), 0);
    assert_eq!(null.chars_read(), 0);
}

#[test]
fn before_any_registration_the_console_is_the_null_console() {
    let mut registry: ConsoleRegistry<&'static Device> = ConsoleRegistry::new();
    let active = console(&mut registry);
    assert!(matches!(active, ActiveConsole::Null(_)));
    active.write_char('x');
    active.flush();
    active.clear_rx();
    assert_eq!(active.read_char(), ' ');
    assert_eq!(active.chars_written(), 0);
    assert_eq!(active.chars_read(), 0);
}

#[test]
fn the_console_is_the_one_registered_last() {
    let mut registry: ConsoleRegistry<&'static Device> = ConsoleRegistry::new();
    let (first, second) = (device(1, 'a'), device(2, 'b'));
    register_console(&mut registry, first);
    assert!(matches!(console(&mut registry), ActiveConsole::Registered(d) if d.id == 1));
    register_console(&mut registry, second);
    assert!(matches!(console(&mut registry), ActiveConsole::Registered(d) if d.id == 2));
    assert!(matches!(console(&mut registry), ActiveConsole::Registered(d) if d.id == 2));
}

#[test]
fn the_active_console_passes_every_call_on() {
    let mut registry: ConsoleRegistry<&'static Device> = ConsoleRegistry::new();
    let uart = device(7, 'q');
    register_console(&mut registry, uart);
    let active = console(&mut registry);
    active.write_char('x');
    active.write_char('y');
    active.flush();
    active.clear_rx();
    assert_eq!(active.read_char(), 'q');
    assert_eq!(active.chars_written(), 2);
    assert_eq!(active.chars_read(), 0);
    assert_eq!(uart.written.get(), 2);
    assert!(uart.flushed.get());
    assert!(uart.cleared.get());
}

#[derive(Clone, Copy)]
struct NoDriver;

impl DeviceDriver for NoDriver {
    fn compatible(&self) -> &'static str {
        "none"
    }
}

impl DeviceDriverPostInitCallback for NoDriver {
    fn call(&self) -> Result<(), &'static str> {
        Ok(())
    }
}

#[test]
fn with_the_null_console_alone_nothing_is_listed_and_nothing_counted() {
    let mut registry: ConsoleRegistry<NullConsole> = ConsoleRegistry::new();
    register_console(&mut registry, NullConsole);
    let mut manager: DriverManager<NoDriver, NoDriver> = DriverManager::new();
    assert!(manager.enumerate().is_empty());
    let active = console(&mut registry);
    active.write_char('x');
    assert_eq!(active.chars_written(), 0);
    assert_eq!(active.chars_read(), 0);
}

struct Silent;

impl Read for Silent {
    fn clear_rx(&self) {}
}

impl Stats for Silent {}

#[test]
fn a_console_that_keeps_the_defaults_reads_a_space_and_counts_nothing() {
    assert_eq!(Silent.read_char(), ' ');
    assert_eq!(Silent.chars_written(), 0);
    assert_eq!(Silent.chars_read(), 0);
}
