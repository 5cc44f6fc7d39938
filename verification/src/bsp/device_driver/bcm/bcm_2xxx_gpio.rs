//! GPIO Driver.

use vstd::prelude::*;

use crate::bsp::device_driver::common::{FieldValue32, MMIODerefWrapper, RegisterOp};
use crate::drivers::interface::DeviceDriver;
use crate::synchronization::interface::Mutex;
use crate::synchronization::SpinLock;
use crate::time::Duration;

verus! {

/// The length of the GPIO register block in bytes.
pub const REGISTER_BLOCK_LEN: usize = 0xE8;

/// The offset of GPFSEL1, GPIO Function Select 1.
pub const GPFSEL1: usize = 0x04;

/// The offset of GPPUD, the GPIO Pull-up/down Register.
pub const GPPUD: usize = 0x94;

/// The offset of GPPUDCLK0, the GPIO Pull-up/down Clock Register 0.
pub const GPPUDCLK0: usize = 0x98;

/// The span for which a pull-up/down setting and its clock have to be held.
pub open spec fn pud_delay() -> Duration {
    Duration::new_spec(0, 1_000)
}

/// The steps that switch the pull-up/down of pins 14 and 15 off, on the
/// block at `start_addr`: set the control signal to off and hold it, clock it
/// into the two pins and hold that, then remove signal and clock.
pub open spec fn disable_pud_14_15_ops(start_addr: usize) -> Seq<RegisterOp> {
    seq![
        RegisterOp::Write { address: (start_addr + GPPUD) as usize, value: 0 },
        RegisterOp::SpinFor(pud_delay()),
        RegisterOp::Write { address: (start_addr + GPPUDCLK0) as usize, value: 0xC000 },
        RegisterOp::SpinFor(pud_delay()),
        RegisterOp::Write { address: (start_addr + GPPUD) as usize, value: 0 },
        RegisterOp::Write { address: (start_addr + GPPUDCLK0) as usize, value: 0 },
    ]
}

/// The steps that map the PL011 UART to pins 14 and 15, on the block at
/// `start_addr`: select alternate function 0 for both pins, leaving the other
/// pins of the register as they are, then switch the pull-up/down of the two
/// pins off.
pub open spec fn map_pl011_uart_ops(start_addr: usize) -> Seq<RegisterOp> {
    seq![
        RegisterOp::Modify {
            address: (start_addr + GPFSEL1) as usize,
            field: FieldValue32 { mask: 0x3F000, value: 0x24000 },
        },
    ] + disable_pud_14_15_ops(start_addr)
}

/// The driver's view of the GPIO registers.
pub struct GPIOInner {
    registers: MMIODerefWrapper,
}

/// The GPIO driver: its inner state behind a lock, so that one caller at a
/// time works on the registers.
pub struct GPIO {
    inner: SpinLock<GPIOInner>,
}

impl GPIOInner {
    /// The register block has the length of the GPIO registers.
    pub closed spec fn wf(&self) -> bool {
        self.registers.wf() && self.registers.len() == REGISTER_BLOCK_LEN
    }

    /// The address of the register block.
    pub closed spec fn start_addr(&self) -> usize {
        self.registers.start_addr()
    }

    /// Create an instance for the registers at `mmio_address`. The register
    /// block must not run past the end of the address space.
    pub fn new(mmio_address: usize) -> (inner: Self)
        requires
            mmio_address + REGISTER_BLOCK_LEN <= usize::MAX,
        ensures
            inner.wf(),
            inner.start_addr() == mmio_address,
    {
        Self { registers: MMIODerefWrapper::new(mmio_address, REGISTER_BLOCK_LEN) }
    }

    /// The steps that switch the pull-up/down of pins 14 and 15 off.
    pub fn disable_pud_14_15_bcm2837(&mut self) -> (ops: Vec<RegisterOp>)
        requires
            old(self).wf(),
        ensures
            *final(self) == *old(self),
            ops@ == disable_pud_14_15_ops(old(self).start_addr()),
    {
        let delay = Duration::from_micros(1);
        proof {
            Duration::lemma_new_spec(0, 1_000);
            delay.lemma_equal_by_view(pud_delay());
        }
        let off = FieldValue32::new(0, 2, 0);
        let clock_15 = FieldValue32::new(15, 1, 1);
        let clock_14 = FieldValue32::new(14, 1, 1);
        let clocks = clock_15.combine(clock_14);
        let (off_value, clocks_value) = (off.value, clocks.value);
        assert(off_value == 0 && clocks_value == 0xC000) by (bit_vector)
            requires
                off_value == (0u32 & (((1u32 << 2u32) - 1) as u32)) << 0u32,
                clocks_value == ((1u32 & (((1u32 << 1u32) - 1) as u32)) << 15u32) | ((1u32 & (((1u32
                    << 1u32) - 1) as u32)) << 14u32),
        ;
        let gppud = self.registers.register(GPPUD);
        let gppudclk0 = self.registers.register(GPPUDCLK0);
        let mut ops: Vec<RegisterOp> = Vec::new();
        ops.push(RegisterOp::Write { address: gppud, value: off.write() });
        ops.push(RegisterOp::SpinFor(delay));
        ops.push(RegisterOp::Write { address: gppudclk0, value: clocks.write() });
        ops.push(RegisterOp::SpinFor(delay));
        ops.push(RegisterOp::Write { address: gppud, value: off.write() });
        ops.push(RegisterOp::Write { address: gppudclk0, value: 0 });
        assert(ops@ =~= disable_pud_14_15_ops(self.start_addr()));
        ops
    }

    /// The steps that map the PL011 UART as standard output: TX to pin 14,
    /// RX to pin 15.
    pub fn map_pl011_uart(&mut self) -> (ops: Vec<RegisterOp>)
        requires
            old(self).wf(),
        ensures
            *final(self) == *old(self),
            ops@ == map_pl011_uart_ops(old(self).start_addr()),
    {
        let select_15 = FieldValue32::new(15, 3, 0b100);
        let select_14 = FieldValue32::new(12, 3, 0b100);
        let select = select_15.combine(select_14);
        let (select_mask, select_value) = (select.mask, select.value);
        assert(select_mask == 0x3F000 && select_value == 0x24000) by (bit_vector)
            requires
                select_mask == ((((1u32 << 3u32) - 1) as u32) << 15u32) | ((((1u32 << 3u32)
                    - 1) as u32) << 12u32),
                select_value == ((0b100u32 & (((1u32 << 3u32) - 1) as u32)) << 15u32) | ((0b100u32
                    & (((1u32 << 3u32) - 1) as u32)) << 12u32),
        ;
        let mut ops: Vec<RegisterOp> = Vec::new();
        ops.push(RegisterOp::Modify { address: self.registers.register(GPFSEL1), field: select });
        let mut rest = self.disable_pud_14_15_bcm2837();
        ops.append(&mut rest);
        assert(ops@ =~= map_pl011_uart_ops(self.start_addr()));
        ops
    }
}

impl GPIO {
    /// The compatibility string of the driver.
    pub const COMPATIBLE: &'static str = "BCM GPIO";

    /// The register block has the length of the GPIO registers.
    pub closed spec fn wf(&self) -> bool {
        self.inner.data().wf()
    }

    /// The address of the register block.
    pub closed spec fn start_addr(&self) -> usize {
        self.inner.data().start_addr()
    }

    /// Create an instance for the registers at `mmio_addr`. The register
    /// block must not run past the end of the address space.
    pub fn new(mmio_addr: usize) -> (gpio: Self)
        requires
            mmio_addr + REGISTER_BLOCK_LEN <= usize::MAX,
        ensures
            gpio.wf(),
            gpio.start_addr() == mmio_addr,
    {
        Self { inner: SpinLock::new(GPIOInner::new(mmio_addr)) }
    }

    /// The steps that map the PL011 UART as standard output: TX to pin 14,
    /// RX to pin 15.
    pub fn map_pl011_uart(&mut self) -> (ops: Vec<RegisterOp>)
        requires
            old(self).wf(),
        ensures
            final(self).wf(),
            final(self).start_addr() == old(self).start_addr(),
            ops@ == map_pl011_uart_ops(old(self).start_addr()),
    {
        self.inner.lock(
            |inner: &mut GPIOInner| -> (ops: Vec<RegisterOp>)
                requires
                    old(inner).wf(),
                ensures
                    *final(inner) == *old(inner),
                    ops@ == map_pl011_uart_ops(old(inner).start_addr()),
                {
                    inner.map_pl011_uart()
                }
        )
    }
}

impl DeviceDriver for GPIO {
    fn compatible(&self) -> (name: &'static str)
        ensures
            name == Self::COMPATIBLE,
    {
        Self::COMPATIBLE
    }

    /// The GPIO block needs no bringing up: the pins are routed after the
    /// drivers' `init`.
    fn init(&self) -> (r: Result<(), &'static str>)
        ensures
            r.is_ok(),
    {
        Ok(())
    }
}

} // verus!
