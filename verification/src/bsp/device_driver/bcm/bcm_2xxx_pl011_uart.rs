//! PL011 UART driver.
//!
//! The line is set up for 8 data bits, no parity and 1 stop bit, at 230400
//! baud. With the UART clock at 48 MHz the baud rate divisor is
//! `48_000_000 / 16 / 230400 = 13.02`: the integer part is 13, and the
//! fraction, in 64ths and rounded, is 1.

use vstd::prelude::*;

use crate::bsp::device_driver::common::{FieldValue32, MMIODerefWrapper, RegisterOp};
use crate::synchronization::interface::Mutex;
use crate::synchronization::SpinLock;

verus! {

/// The length of the UART register block in bytes.
pub const REGISTER_BLOCK_LEN: usize = 0x48;

/// The offset of DR, the data register.
pub const DR: usize = 0x00;

/// The offset of FR, the flag register.
pub const FR: usize = 0x18;

/// The offset of IBRD, the integer baud rate divisor.
pub const IBRD: usize = 0x24;

/// The offset of FBRD, the fractional baud rate divisor.
pub const FBRD: usize = 0x28;

/// The offset of LCR_H, the line control register.
pub const LCR_H: usize = 0x2c;

/// The offset of CR, the control register.
pub const CR: usize = 0x30;

/// The offset of ICR, the interrupt clear register.
pub const ICR: usize = 0x44;

/// The flag TXFF of FR, set: the transmit FIFO is full.
pub open spec fn tx_fifo_full() -> FieldValue32 {
    FieldValue32 { mask: 0x20, value: 0x20 }
}

/// The flag RXFE of FR, set: the receive FIFO is empty.
pub open spec fn rx_fifo_empty() -> FieldValue32 {
    FieldValue32 { mask: 0x10, value: 0x10 }
}

/// The flag BUSY of FR, set: the UART is transmitting.
pub open spec fn busy() -> FieldValue32 {
    FieldValue32 { mask: 0x08, value: 0x08 }
}

/// The step that waits until the last character has left the UART.
pub open spec fn flush_op(start_addr: usize) -> RegisterOp {
    RegisterOp::SpinWhile { address: (start_addr + FR) as usize, field: busy() }
}

/// The steps that bring the UART up, on the block at `start_addr`: wait for
/// what is still being sent, turn the UART off, clear the pending interrupts,
/// set the divisors to 13 and 1/64, the line to 8 bits with FIFOs, and turn
/// the UART on with transmitter and receiver.
pub open spec fn init_ops(start_addr: usize) -> Seq<RegisterOp> {
    seq![
        flush_op(start_addr),
        RegisterOp::Write { address: (start_addr + CR) as usize, value: 0 },
        RegisterOp::Write { address: (start_addr + ICR) as usize, value: 0 },
        RegisterOp::Write { address: (start_addr + IBRD) as usize, value: 13 },
        RegisterOp::Write { address: (start_addr + FBRD) as usize, value: 1 },
        RegisterOp::Write { address: (start_addr + LCR_H) as usize, value: 0x70 },
        RegisterOp::Write { address: (start_addr + CR) as usize, value: 0x301 },
    ]
}

/// The steps that send the character `c`: wait while the transmit FIFO is
/// full, then store the character's code in the data register.
pub open spec fn write_char_ops(start_addr: usize, c: char) -> Seq<RegisterOp> {
    seq![
        RegisterOp::SpinWhile { address: (start_addr + FR) as usize, field: tx_fifo_full() },
        RegisterOp::Write { address: (start_addr + DR) as usize, value: c as u32 },
    ]
}

/// Whether a read waits for a character.
#[derive(Clone, Copy, Debug, PartialEq, Eq, Structural)]
pub enum BlockingMode {
    /// Wait until a character has arrived.
    Blocking,
    /// Give up where no character is there.
    NonBlocking,
}

/// What a read does next, once it has seen the flag register.
#[derive(Clone, Copy, Debug, PartialEq, Eq, Structural)]
pub enum ReadStep {
    /// No character is there, and the read does not wait: it ends empty.
    Empty,
    /// No character is there yet: do a no-op and look at the flags again.
    Wait,
    /// A character is there: read the data register and hand the word to
    /// `receive`.
    Take,
}

/// What a read in `blocking_mode` does when the flag register holds `flags`.
pub open spec fn read_step(blocking_mode: BlockingMode, flags: u32) -> ReadStep {
    if flags & rx_fifo_empty().mask == rx_fifo_empty().value {
        match blocking_mode {
            BlockingMode::NonBlocking => ReadStep::Empty,
            BlockingMode::Blocking => ReadStep::Wait,
        }
    } else {
        ReadStep::Take
    }
}

/// The character in the word `data` that was read from the data register:
/// the one whose code is the word's lowest byte. No character is
/// mapped to another.
pub open spec fn received_char(data: u32) -> char {
    ((data & 0xff) as u8) as char
}

/// The driver's view of the UART: its registers, and the characters counted.
pub struct PL011UartInner {
    registers: MMIODerefWrapper,
    chars_written: usize,
    chars_read: usize,
}

/// The UART driver: its inner state behind a lock, so that one caller at a
/// time works on the registers.
pub struct PL011Uart {
    inner: SpinLock<PL011UartInner>,
}

impl PL011UartInner {
    /// The register block has the length of the UART registers.
    pub closed spec fn wf(&self) -> bool {
        self.registers.wf() && self.registers.len() == REGISTER_BLOCK_LEN
    }

    /// The address of the register block.
    pub closed spec fn start_addr(&self) -> usize {
        self.registers.start_addr()
    }

    /// The number of characters written.
    pub closed spec fn spec_chars_written(&self) -> usize {
        self.chars_written
    }

    /// The number of characters read.
    pub closed spec fn spec_chars_read(&self) -> usize {
        self.chars_read
    }

    /// Create an instance for the registers at `mmio_start_addr`, with
    /// nothing counted. The register block must not run past the end of the
    /// address space.
    pub fn new(mmio_start_addr: usize) -> (inner: Self)
        requires
            mmio_start_addr + REGISTER_BLOCK_LEN <= usize::MAX,
        ensures
            inner.wf(),
            inner.start_addr() == mmio_start_addr,
            inner.spec_chars_written() == 0,
            inner.spec_chars_read() == 0,
    {
        Self {
            registers: MMIODerefWrapper::new(mmio_start_addr, REGISTER_BLOCK_LEN),
            chars_written: 0,
            chars_read: 0,
        }
    }

    /// The flag BUSY of FR, set.
    fn busy(&self) -> (field: FieldValue32)
        ensures
            field == busy(),
            field.wf(),
    {
        let field = FieldValue32::new(3, 1, 1);
        let (mask, value) = (field.mask, field.value);
        assert(mask == 0x08 && value == 0x08 && value & !mask == 0) by (bit_vector)
            requires
                mask == (((1u32 << 1u32) - 1) as u32) << 3u32,
                value == (1u32 & (((1u32 << 1u32) - 1) as u32)) << 3u32,
        ;
        field
    }

    /// The address of the flag register, for the reads that a read of a
    /// character goes by.
    pub fn flag_register(&self) -> (address: usize)
        requires
            self.wf(),
        ensures
            address == self.start_addr() + FR,
    {
        self.registers.register(FR)
    }

    /// The address of the data register, for the read that takes a
    /// character.
    pub fn data_register(&self) -> (address: usize)
        requires
            self.wf(),
        ensures
            address == self.start_addr() + DR,
    {
        self.registers.register(DR)
    }

    /// The steps that set up baud rate and characteristics: 8N1 at 230400
    /// baud.
    pub fn init(&mut self) -> (ops: Vec<RegisterOp>)
        requires
            old(self).wf(),
        ensures
            *final(self) == *old(self),
            ops@ == init_ops(old(self).start_addr()),
    {
        let clear_all = FieldValue32::new(0, 11, 0);
        let divisor = FieldValue32::new(0, 16, 13);
        let fraction = FieldValue32::new(0, 6, 1);
        let line = FieldValue32::new(5, 2, 0b11).combine(FieldValue32::new(4, 1, 1));
        let on = FieldValue32::new(0, 1, 1).combine(FieldValue32::new(8, 1, 1)).combine(
            FieldValue32::new(9, 1, 1),
        );
        let (clear_all_value, divisor_value, fraction_value) = (
            clear_all.value,
            divisor.value,
            fraction.value,
        );
        let (line_value, on_value) = (line.value, on.value);
        assert(clear_all_value == 0 && divisor_value == 13 && fraction_value == 1) by (bit_vector)
            requires
                clear_all_value == (0u32 & (((1u32 << 11u32) - 1) as u32)) << 0u32,
                divisor_value == (13u32 & (((1u32 << 16u32) - 1) as u32)) << 0u32,
                fraction_value == (1u32 & (((1u32 << 6u32) - 1) as u32)) << 0u32,
        ;
        assert(line_value == 0x70 && on_value == 0x301) by (bit_vector)
            requires
                line_value == ((0b11u32 & (((1u32 << 2u32) - 1) as u32)) << 5u32) | ((1u32 & (((1u32
                    << 1u32) - 1) as u32)) << 4u32),
                on_value == (((1u32 & (((1u32 << 1u32) - 1) as u32)) << 0u32) | ((1u32 & (((1u32
                    << 1u32) - 1) as u32)) << 8u32)) | ((1u32 & (((1u32 << 1u32) - 1) as u32))
                    << 9u32),
        ;
        let cr = self.registers.register(CR);
        let mut ops: Vec<RegisterOp> = Vec::new();
        ops.push(self.flush());
        ops.push(RegisterOp::Write { address: cr, value: 0 });
        ops.push(
            RegisterOp::Write { address: self.registers.register(ICR), value: clear_all.write() },
        );
        ops.push(
            RegisterOp::Write { address: self.registers.register(IBRD), value: divisor.write() },
        );
        ops.push(
            RegisterOp::Write { address: self.registers.register(FBRD), value: fraction.write() },
        );
        ops.push(RegisterOp::Write { address: self.registers.register(LCR_H), value: line.write() });
        ops.push(RegisterOp::Write { address: cr, value: on.write() });
        assert(ops@ =~= init_ops(self.start_addr()));
        ops
    }

    /// The steps that send a character, which is counted as written.
    pub fn write_char(&mut self, c: char) -> (ops: Vec<RegisterOp>)
        requires
            old(self).wf(),
            old(self).spec_chars_written() < usize::MAX,
        ensures
            final(self).wf(),
            final(self).start_addr() == old(self).start_addr(),
            final(self).spec_chars_read() == old(self).spec_chars_read(),
            final(self).spec_chars_written() == old(self).spec_chars_written() + 1,
            ops@ == write_char_ops(old(self).start_addr(), c),
    {
        let full = FieldValue32::new(5, 1, 1);
        let (mask, value) = (full.mask, full.value);
        assert(mask == 0x20 && value == 0x20) by (bit_vector)
            requires
                mask == (((1u32 << 1u32) - 1) as u32) << 5u32,
                value == (1u32 & (((1u32 << 1u32) - 1) as u32)) << 5u32,
        ;
        let mut ops: Vec<RegisterOp> = Vec::new();
        ops.push(RegisterOp::SpinWhile { address: self.registers.register(FR), field: full });
        ops.push(RegisterOp::Write { address: self.registers.register(DR), value: c as u32 });
        self.chars_written += 1;
        assert(ops@ =~= write_char_ops(self.start_addr(), c));
        ops
    }

    /// The step that blocks until the last buffered character has been put
    /// on the wire.
    pub fn flush(&self) -> (op: RegisterOp)
        requires
            self.wf(),
        ensures
            op == flush_op(self.start_addr()),
    {
        RegisterOp::SpinWhile { address: self.registers.register(FR), field: self.busy() }
    }

    /// What a read in `blocking_mode` does next, by the word `flags` that was
    /// read from the flag register.
    pub fn read_char(&self, blocking_mode: BlockingMode, flags: u32) -> (step: ReadStep)
        ensures
            step == read_step(blocking_mode, flags),
    {
        let empty = FieldValue32::new(4, 1, 1);
        let (mask, value) = (empty.mask, empty.value);
        assert(mask == 0x10 && value == 0x10) by (bit_vector)
            requires
                mask == (((1u32 << 1u32) - 1) as u32) << 4u32,
                value == (1u32 & (((1u32 << 1u32) - 1) as u32)) << 4u32,
        ;
        if empty.matches_all(flags) {
            match blocking_mode {
                BlockingMode::NonBlocking => ReadStep::Empty,
                BlockingMode::Blocking => ReadStep::Wait,
            }
        } else {
            ReadStep::Take
        }
    }

    /// The character in the word `data` that was read from the data
    /// register, which is counted as read.
    pub fn receive(&mut self, data: u32) -> (c: char)
        requires
            old(self).spec_chars_read() < usize::MAX,
        ensures
            final(self).wf() == old(self).wf(),
            final(self).start_addr() == old(self).start_addr(),
            final(self).spec_chars_written() == old(self).spec_chars_written(),
            final(self).spec_chars_read() == old(self).spec_chars_read() + 1,
            c == received_char(data),
    {
        let byte: u8 = (data & 0xff) as u8;
        self.chars_read += 1;
        byte as char
    }

    /// The number of characters written.
    #[verifier::when_used_as_spec(spec_chars_written)]
    pub fn chars_written(&self) -> (n: usize)
        ensures
            n == self.spec_chars_written(),
    {
        self.chars_written
    }

    /// The number of characters read.
    #[verifier::when_used_as_spec(spec_chars_read)]
    pub fn chars_read(&self) -> (n: usize)
        ensures
            n == self.spec_chars_read(),
    {
        self.chars_read
    }
}

impl PL011Uart {
    /// The compatibility string of the driver.
    pub const COMPATIBLE: &'static str = "BCM PL011 UART";

    /// The state behind the lock.
    pub closed spec fn view(&self) -> PL011UartInner {
        self.inner.data()
    }

    /// Create an instance for the registers at `mmio_start_addr`, with
    /// nothing counted. The register block must not run past the end of the
    /// address space.
    pub fn new(mmio_start_addr: usize) -> (uart: Self)
        requires
            mmio_start_addr + REGISTER_BLOCK_LEN <= usize::MAX,
        ensures
            uart@.wf(),
            uart@.start_addr() == mmio_start_addr,
            uart@.spec_chars_written() == 0,
            uart@.spec_chars_read() == 0,
    {
        Self { inner: SpinLock::new(PL011UartInner::new(mmio_start_addr)) }
    }

    /// The address of the flag register, for the reads that a read of a
    /// character goes by.
    pub fn flag_register(&mut self) -> (address: usize)
        requires
            old(self)@.wf(),
        ensures
            final(self)@ == old(self)@,
            address == old(self)@.start_addr() + FR,
    {
        self.inner.lock(
            |inner: &mut PL011UartInner| -> (address: usize)
                requires
                    old(inner).wf(),
                ensures
                    *final(inner) == *old(inner),
                    address == old(inner).start_addr() + FR,
                {
                    inner.flag_register()
                }
        )
    }

    /// The address of the data register, for the read that takes a
    /// character.
    pub fn data_register(&mut self) -> (address: usize)
        requires
            old(self)@.wf(),
        ensures
            final(self)@ == old(self)@,
            address == old(self)@.start_addr() + DR,
    {
        self.inner.lock(
            |inner: &mut PL011UartInner| -> (address: usize)
                requires
                    old(inner).wf(),
                ensures
                    *final(inner) == *old(inner),
                    address == old(inner).start_addr() + DR,
                {
                    inner.data_register()
                }
        )
    }

    /// The steps that bring the UART up.
    pub fn init(&mut self) -> (ops: Vec<RegisterOp>)
        requires
            old(self)@.wf(),
        ensures
            final(self)@ == old(self)@,
            ops@ == init_ops(old(self)@.start_addr()),
    {
        self.inner.lock(
            |inner: &mut PL011UartInner| -> (ops: Vec<RegisterOp>)
                requires
                    old(inner).wf(),
                ensures
                    *final(inner) == *old(inner),
                    ops@ == init_ops(old(inner).start_addr()),
                {
                    inner.init()
                }
        )
    }

    /// The steps that send a character, which is counted as written.
    pub fn write_char(&mut self, c: char) -> (ops: Vec<RegisterOp>)
        requires
            old(self)@.wf(),
            old(self)@.spec_chars_written() < usize::MAX,
        ensures
            final(self)@.wf(),
            final(self)@.start_addr() == old(self)@.start_addr(),
            final(self)@.spec_chars_read() == old(self)@.spec_chars_read(),
            final(self)@.spec_chars_written() == old(self)@.spec_chars_written() + 1,
            ops@ == write_char_ops(old(self)@.start_addr(), c),
    {
        self.inner.lock(
            |inner: &mut PL011UartInner| -> (ops: Vec<RegisterOp>)
                requires
                    old(inner).wf(),
                    old(inner).spec_chars_written() < usize::MAX,
                ensures
                    final(inner).wf(),
                    final(inner).start_addr() == old(inner).start_addr(),
                    final(inner).spec_chars_read() == old(inner).spec_chars_read(),
                    final(inner).spec_chars_written() == old(inner).spec_chars_written() + 1,
                    ops@ == write_char_ops(old(inner).start_addr(), c),
                {
                    inner.write_char(c)
                }
        )
    }

    /// The step that blocks until the last buffered character has been put
    /// on the wire.
    pub fn flush(&mut self) -> (op: RegisterOp)
        requires
            old(self)@.wf(),
        ensures
            final(self)@ == old(self)@,
            op == flush_op(old(self)@.start_addr()),
    {
        self.inner.lock(
            |inner: &mut PL011UartInner| -> (op: RegisterOp)
                requires
                    old(inner).wf(),
                ensures
                    *final(inner) == *old(inner),
                    op == flush_op(old(inner).start_addr()),
                {
                    inner.flush()
                }
        )
    }

    /// What a read in `blocking_mode` does next, by the word `flags` that was
    /// read from the flag register.
    pub fn read_char(&mut self, blocking_mode: BlockingMode, flags: u32) -> (step: ReadStep)
        ensures
            final(self)@ == old(self)@,
            step == read_step(blocking_mode, flags),
    {
        self.inner.lock(
            |inner: &mut PL011UartInner| -> (step: ReadStep)
                ensures
                    *final(inner) == *old(inner),
                    step == read_step(blocking_mode, flags),
                {
                    inner.read_char(blocking_mode, flags)
                }
        )
    }

    /// The character in the word `data` that was read from the data
    /// register, which is counted as read.
    pub fn receive(&mut self, data: u32) -> (c: char)
        requires
            old(self)@.spec_chars_read() < usize::MAX,
        ensures
            final(self)@.wf() == old(self)@.wf(),
            final(self)@.start_addr() == old(self)@.start_addr(),
            final(self)@.spec_chars_written() == old(self)@.spec_chars_written(),
            final(self)@.spec_chars_read() == old(self)@.spec_chars_read() + 1,
            c == received_char(data),
    {
        self.inner.lock(
            |inner: &mut PL011UartInner| -> (c: char)
                requires
                    old(inner).spec_chars_read() < usize::MAX,
                ensures
                    final(inner).wf() == old(inner).wf(),
                    final(inner).start_addr() == old(inner).start_addr(),
                    final(inner).spec_chars_written() == old(inner).spec_chars_written(),
                    final(inner).spec_chars_read() == old(inner).spec_chars_read() + 1,
                    c == received_char(data),
                {
                    inner.receive(data)
                }
        )
    }

    /// The number of characters written.
    pub fn chars_written(&mut self) -> (n: usize)
        ensures
            final(self)@ == old(self)@,
            n == old(self)@.spec_chars_written(),
    {
        self.inner.lock(
            |inner: &mut PL011UartInner| -> (n: usize)
                ensures
                    *final(inner) == *old(inner),
                    n == old(inner).spec_chars_written(),
                {
                    inner.chars_written()
                }
        )
    }

    /// The number of characters read.
    pub fn chars_read(&mut self) -> (n: usize)
        ensures
            final(self)@ == old(self)@,
            n == old(self)@.spec_chars_read(),
    {
        self.inner.lock(
            |inner: &mut PL011UartInner| -> (n: usize)
                ensures
                    *final(inner) == *old(inner),
                    n == old(inner).spec_chars_read(),
                {
                    inner.chars_read()
                }
        )
    }
}

} // verus!
