use my_os::bsp::device_driver::bcm::bcm_2xxx_gpio::{GPIOInner, GPIO};
use my_os::bsp::device_driver::bcm::bcm_2xxx_pl011_uart::{
    BlockingMode, PL011Uart, PL011UartInner, ReadStep,
};
use my_os::bsp::device_driver::common::{FieldValue32, RegisterOp};
use my_os::drivers::interface::DeviceDriver;
use my_os::time::Duration;

const GPIO_BASE: usize = 0x3f20_0000;
const UART_BASE: usize = 0x3f20_1000;

fn gpio_disable_pud() -> Vec<RegisterOp> {
    vec![
        RegisterOp::Write { address: GPIO_BASE + 0x94, value: 0 },
        RegisterOp::SpinFor(Duration::from_micros(1)),
        RegisterOp::Write { address: GPIO_BASE + 0x98, value: 0xc000 },
        RegisterOp::SpinFor(Duration::from_micros(1)),
        RegisterOp::Write { address: GPIO_BASE + 0x94, value: 0 },
        RegisterOp::Write { address: GPIO_BASE + 0x98, value: 0 },
    ]
}

#[test]
fn the_pull_up_down_of_the_uart_pins_is_switched_off() {
    let mut inner = GPIOInner::new(GPIO_BASE);
    assert_eq!(inner.disable_pud_14_15_bcm2837(), gpio_disable_pud());
}

#[test]
fn the_uart_is_mapped_to_pins_14_and_15() {
    let mut expected = vec![RegisterOp::Modify {
        address: GPIO_BASE + 0x04,
        field: FieldValue32 { mask: 0x3f000, value: 0x24000 },
    }];
    expected.extend(gpio_disable_pud());
    let mut inner = GPIOInner::new(GPIO_BASE);
    assert_eq!(inner.map_pl011_uart(), expected);
    let mut gpio = GPIO::new(GPIO_BASE);
    assert_eq!(gpio.map_pl011_uart(), expected);
    assert_eq!(gpio.map_pl011_uart(), expected);
}

#[test]
fn the_gpio_driver_is_a_device_driver() {
    let gpio = GPIO::new(GPIO_BASE);
    assert_eq!(gpio.compatible(), "BCM GPIO");
    assert_eq!(gpio.init(), Ok(()));
    assert_eq!(GPIO::COMPATIBLE, "BCM GPIO");
    assert_eq!(PL011Uart::COMPATIBLE, "BCM PL011 UART");
}

#[test]
fn a_driver_may_lie_at_the_end_of_the_address_space() {
    let mut gpio = GPIO::new(usize::MAX - 0xe8);
    assert_eq!(gpio.map_pl011_uart()[3], RegisterOp::Write { address: usize::MAX - 0xe8 + 0x98, value: 0xc000 });
    let mut inner = GPIOInner::new(usize::MAX - 0xe8);
    assert_eq!(inner.map_pl011_uart()[1], RegisterOp::Write { address: usize::MAX - 0xe8 + 0x94, value: 0 });
    let mut uart = PL011Uart::new(usize::MAX - 0x48);
    assert_eq!(uart.init()[6], RegisterOp::Write { address: usize::MAX - 0x48 + 0x30, value: 0x301 });
    let inner = PL011UartInner::new(usize::MAX - 0x48);
    assert_eq!(inner.flag_register(), usize::MAX - 0x48 + 0x18);
}

fn uart_init() -> Vec<RegisterOp> {
    vec![
        RegisterOp::SpinWhile { address: UART_BASE + 0x18, field: FieldValue32 { mask: 8, value: 8 } },
        RegisterOp::Write { address: UART_BASE + 0x30, value: 0 },
        RegisterOp::Write { address: UART_BASE + 0x44, value: 0 },
        RegisterOp::Write { address: UART_BASE + 0x24, value: 13 },
        RegisterOp::Write { address: UART_BASE + 0x28, value: 1 },
        RegisterOp::Write { address: UART_BASE + 0x2c, value: 0x70 },
        RegisterOp::Write { address: UART_BASE + 0x30, value: 0x301 },
    ]
}

#[test]
fn the_uart_is_brought_up_at_8n1() {
    let mut inner = PL011UartInner::new(UART_BASE);
    assert_eq!(inner.init(), uart_init());
    let mut uart = PL011Uart::new(UART_BASE);
    assert_eq!(uart.init(), uart_init());
    assert_eq!((uart.chars_written(), uart.chars_read()), (0, 0));
}

#[test]
fn a_character_is_sent_once_the_fifo_has_room() {
    let mut uart = PL011Uart::new(UART_BASE);
    let ops = uart.write_char('A');
    assert_eq!(
        ops,
        vec![
            RegisterOp::SpinWhile { address: UART_BASE + 0x18, field: FieldValue32 { mask: 0x20, value: 0x20 } },
            RegisterOp::Write { address: UART_BASE, value: 0x41 },
        ]
    );
    assert_eq!(uart.write_char('\u{1F600}')[1], RegisterOp::Write { address: UART_BASE, value: 0x1f600 });
    assert_eq!((uart.chars_written(), uart.chars_read()), (2, 0));
}

#[test]
fn a_read_looks_at_the_flag_and_the_data_register() {
    let mut uart = PL011Uart::new(UART_BASE);
    assert_eq!(uart.flag_register(), UART_BASE + 0x18);
    assert_eq!(uart.data_register(), UART_BASE);
    let inner = PL011UartInner::new(UART_BASE);
    assert_eq!(inner.flag_register(), UART_BASE + 0x18);
    assert_eq!(inner.data_register(), UART_BASE);
}

#[test]
fn a_flush_waits_while_the_uart_is_busy() {
    let mut uart = PL011Uart::new(UART_BASE);
    let expected = RegisterOp::SpinWhile { address: UART_BASE + 0x18, field: FieldValue32 { mask: 8, value: 8 } };
    assert_eq!(uart.flush(), expected);
    assert_eq!(PL011UartInner::new(UART_BASE).flush(), expected);
}

#[test]
fn a_read_goes_by_the_receive_fifo() {
    let mut uart = PL011Uart::new(UART_BASE);
    assert_eq!(uart.read_char(BlockingMode::NonBlocking, 0x10), ReadStep::Empty);
    assert_eq!(uart.read_char(BlockingMode::Blocking, 0x10), ReadStep::Wait);
    assert_eq!(uart.read_char(BlockingMode::NonBlocking, 0), ReadStep::Take);
    assert_eq!(uart.read_char(BlockingMode::Blocking, 0), ReadStep::Take);
    assert_eq!(uart.read_char(BlockingMode::Blocking, 0xffff_ffef), ReadStep::Take);
    assert_eq!(uart.read_char(BlockingMode::NonBlocking, 0xffff_ffff), ReadStep::Empty);
    assert_eq!(uart.chars_read(), 0);
}

#[test]
fn a_received_character_is_the_lowest_byte_and_is_counted() {
    let mut uart = PL011Uart::new(UART_BASE);
    assert_eq!(uart.receive(0x41), 'A');
    assert_eq!(uart.receive(0x0d), '\r');
    assert_eq!(uart.receive(0xf00 | 0xe9), '\u{e9}');
    assert_eq!((uart.chars_written(), uart.chars_read()), (0, 3));
    let mut inner = PL011UartInner::new(UART_BASE);
    assert_eq!(inner.read_char(BlockingMode::NonBlocking, 0x10), ReadStep::Empty);
    assert_eq!(inner.receive(0x7a), 'z');
    assert_eq!((inner.chars_written(), inner.chars_read()), (0, 1));
}
