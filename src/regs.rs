//! Register layout of a UART block and the bit masks of its registers.

use vstd::prelude::*;

verus! {

/// Line control: word length of 5 bits.
pub const LCR_WORD_LENGTH_5: u32 = 0;
/// Line control: word length of 6 bits.
pub const LCR_WORD_LENGTH_6: u32 = 1;
/// Line control: word length of 7 bits.
pub const LCR_WORD_LENGTH_7: u32 = 2;
/// Line control: word length of 8 bits.
pub const LCR_WORD_LENGTH_8: u32 = 3;
/// Line control: two stop bits.
pub const LCR_STOP: u32 = 1 << 2;
/// Line control: parity enabled.
pub const LCR_PAR: u32 = 1 << 3;
/// Line control: even parity.
pub const LCR_EVEN: u32 = 1 << 4;
/// Line control: forced parity.
pub const LCR_SET_P: u32 = 1 << 5;
/// Line control: send a break.
pub const LCR_SET_B: u32 = 1 << 6;
/// Line control: Divisor Latch Access Bit.
pub const LCR_DLAB: u32 = 1 << 7;

/// FIFO control: enable the transmit and receive FIFOs.
pub const FCR_EN_FIFO: u32 = 1 << 0;
/// FIFO control: clear the receive FIFO (self-clearing).
pub const FCR_RX_CLR: u32 = 1 << 1;
/// FIFO control: clear the transmit FIFO (self-clearing).
pub const FCR_TX_CLR: u32 = 1 << 2;
/// FIFO control: DMA mode 1.
pub const FCR_DMA: u32 = 1 << 3;
/// FIFO control: transmit trigger level field.
pub const FCR_TX_TRIG: u32 = 3 << 4;
/// FIFO control: receive trigger level field.
pub const FCR_RX_TRIG: u32 = 3 << 6;

/// Interrupt identification: no interrupt pending when set.
pub const IIR_IS_STA: u32 = 1 << 0;
/// Interrupt identification: encoded interrupt id, bit 0.
pub const IIR_IS_PRI0: u32 = 1 << 1;
/// Interrupt identification: encoded interrupt id, bit 1.
pub const IIR_IS_PRI1: u32 = 1 << 2;
/// Interrupt identification: encoded interrupt id, bit 2.
pub const IIR_IS_PRI2: u32 = 1 << 3;
/// Interrupt identification: FIFO mode field.
pub const IIR_EN_FIFO: u32 = 3 << 6;

/// Line status: receiver data ready.
pub const LSR_RDR: u32 = 1 << 0;
/// Line status: receiver overrun.
pub const LSR_OVRF: u32 = 1 << 1;
/// Line status: parity error.
pub const LSR_PERR: u32 = 1 << 2;
/// Line status: framing error.
pub const LSR_FERR: u32 = 1 << 3;
/// Line status: break detected.
pub const LSR_BRK: u32 = 1 << 4;
/// Line status: transmit holding register empty.
pub const LSR_THRE: u32 = 1 << 5;
/// Line status: transmit shift register empty.
pub const LSR_TMTY: u32 = 1 << 6;
/// Line status: receive FIFO error.
pub const LSR_FIFOE: u32 = 1 << 7;
/// Line status: transmit FIFO full.
pub const LSR_TX_FIFO_FULL: u32 = 1 << 8;
/// Line status: receive FIFO empty.
pub const LSR_RX_FIFO_EMPTY: u32 = 1 << 9;

/// Vendor status: the transmit path is idle.
pub const VENDOR_TX_IDLE: u32 = 1 << 0;
/// Vendor status: the receive path is idle.
pub const VENDOR_RX_IDLE: u32 = 1 << 1;
/// Vendor status: a read was issued to an empty receive FIFO (sticky).
pub const VENDOR_RX_UNDERRUN: u32 = 1 << 2;
/// Vendor status: a write was issued to a full transmit FIFO (sticky).
pub const VENDOR_TX_OVERRUN: u32 = 1 << 3;
/// Vendor status: number of entries in the receive FIFO.
pub const VENDOR_RX_FIFO_COUNTER: u32 = 63 << 16;
/// Vendor status: number of entries in the transmit FIFO.
pub const VENDOR_TX_FIFO_COUNTER: u32 = 63 << 24;

/// The registers of one UART block, in address order.
///
/// `Thr` is the transmit holding register when written and the receive
/// holding register when read; while the Divisor Latch Access Bit is set,
/// `Thr` and `Ier` hold the low and high byte of the baud-rate divisor.
#[derive(Clone, Copy, Debug, PartialEq, Eq, Structural)]
pub enum Register {
    Thr,
    Ier,
    IirFcr,
    Lcr,
    Mcr,
    Lsr,
    Msr,
    Spr,
    IrdaCsr,
    RxFifoCfg,
    Mie,
    VendorStatus,
    Asr,
}

/// Byte offset of a register from the start of its block.
pub open spec fn offset_of(r: Register) -> u32 {
    match r {
        Register::Thr => 0x00,
        Register::Ier => 0x04,
        Register::IirFcr => 0x08,
        Register::Lcr => 0x0C,
        Register::Mcr => 0x10,
        Register::Lsr => 0x14,
        Register::Msr => 0x18,
        Register::Spr => 0x1C,
        Register::IrdaCsr => 0x20,
        Register::RxFifoCfg => 0x24,
        Register::Mie => 0x28,
        Register::VendorStatus => 0x2C,
        Register::Asr => 0x3C,
    }
}

impl Register {
    /// Byte offset of this register from the start of the block.
    pub fn offset(&self) -> (r: u32)
        ensures
            r == offset_of(*self),
    {
        match self {
            Register::Thr => 0x00,
            Register::Ier => 0x04,
            Register::IirFcr => 0x08,
            Register::Lcr => 0x0C,
            Register::Mcr => 0x10,
            Register::Lsr => 0x14,
            Register::Msr => 0x18,
            Register::Spr => 0x1C,
            Register::IrdaCsr => 0x20,
            Register::RxFifoCfg => 0x24,
            Register::Mie => 0x28,
            Register::VendorStatus => 0x2C,
            Register::Asr => 0x3C,
        }
    }
}

/// The register block of one UART, identified by its base address.
#[derive(Clone, Copy, Debug, PartialEq, Eq, Structural)]
pub struct Registers {
    pub base: u32,
}

impl Registers {
    /// Physical address of register `r` in this block.
    pub fn address_of(&self, r: Register) -> (a: u32)
        requires
            self.base + 0x3C <= u32::MAX,
        ensures
            a == self.base + offset_of(r),
    {
        self.base + r.offset()
    }
}

} // verus!
