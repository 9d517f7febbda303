//! Pad configuration of the pins that carry the UART and I2C signals.

use vstd::prelude::*;

use crate::step::ClockId;
use crate::uart::Uart;

verus! {

/// Base address of the pin multiplexer registers.
pub const PINMUX_BASE: u32 = 0x7000_3000;
/// Pad option: pull down.
pub const PULL_DOWN: u32 = 1 << 2;
/// Pad option: pull up.
pub const PULL_UP: u32 = 2 << 2;
/// Pad option: tristate (output driver off).
pub const TRISTATE: u32 = 1 << 4;
/// Pad option: input receiver enabled.
pub const INPUT: u32 = 1 << 6;

/// Offset of the first UART pad register (UART 1 TX); each UART has four
/// pads, TX, RX, RTS and CTS, in that order.
pub const UART_PADS_OFFSET: u32 = 0xE4;
/// Offset of the first I2C pad register (I2C 1 SCL); each bus has two
/// pads, SCL and SDA, in that order.
pub const I2C_PADS_OFFSET: u32 = 0xBC;

/// One pad register write.
#[derive(Clone, Copy, Debug, PartialEq, Eq, Structural)]
pub struct PadWrite {
    pub address: u32,
    pub value: u32,
}

/// The I2C controllers.
#[derive(Clone, Copy, Debug, PartialEq, Eq, Structural)]
pub enum I2c {
    C1,
    C2,
    C3,
    C4,
    C5,
    C6,
}

/// The pin multiplexer.
#[derive(Clone, Copy, Debug, PartialEq, Eq, Structural)]
pub struct Pinmux;

/// Index of the pad group of the UART fed by `clock`, if its pads are
/// routed on this board.
pub open spec fn uart_pad_group(clock: ClockId) -> Option<u32> {
    match clock {
        ClockId::UartA => Some(0),
        ClockId::UartB => Some(1),
        ClockId::UartC => Some(2),
        ClockId::UartD => Some(3),
        ClockId::UartApe => None,
    }
}

/// Index of the pad group of an I2C bus, if its pads are routed on this
/// board.
pub open spec fn i2c_pad_group(bus: I2c) -> Option<u32> {
    match bus {
        I2c::C1 => Some(0),
        I2c::C2 => Some(1),
        I2c::C3 => Some(2),
        I2c::C4 => Some(3),
        I2c::C5 => Some(4),
        I2c::C6 => None,
    }
}

/// The writes that set up the UART pads of group `g`: TX and RTS as
/// outputs, RX as an input pulled up, CTS as an input pulled down.
pub open spec fn uart_pad_writes(g: u32) -> Seq<PadWrite> {
    let first = (PINMUX_BASE + UART_PADS_OFFSET + 16 * g) as u32;
    seq![
        PadWrite { address: first, value: 0 },
        PadWrite { address: (first + 4) as u32, value: INPUT | PULL_UP },
        PadWrite { address: (first + 8) as u32, value: 0 },
        PadWrite { address: (first + 12) as u32, value: INPUT | PULL_DOWN },
    ]
}

/// The writes that set up the I2C pads of group `g`: SCL and SDA as
/// inputs.
pub open spec fn i2c_pad_writes(g: u32) -> Seq<PadWrite> {
    let first = (PINMUX_BASE + I2C_PADS_OFFSET + 8 * g) as u32;
    seq![
        PadWrite { address: first, value: INPUT },
        PadWrite { address: (first + 4) as u32, value: INPUT },
    ]
}

impl Pinmux {
    /// Pad writes that route `uart`'s signals to its pins; none for a
    /// UART whose pads are not routed.
    pub fn configure_uart<S>(&self, uart: &Uart<S>) -> (w: Vec<PadWrite>)
        ensures
            w@ == (match uart_pad_group(uart.clock) {
                Some(g) => uart_pad_writes(g),
                None => Seq::empty(),
            }),
    {
        let group: u32 = match uart.clock {
            ClockId::UartA => 0,
            ClockId::UartB => 1,
            ClockId::UartC => 2,
            ClockId::UartD => 3,
            ClockId::UartApe => {
                return Vec::new();
            },
        };
        let first = PINMUX_BASE + UART_PADS_OFFSET + 16 * group;
        let mut w: Vec<PadWrite> = Vec::new();
        w.push(PadWrite { address: first, value: 0 });
        w.push(PadWrite { address: first + 4, value: INPUT | PULL_UP });
        w.push(PadWrite { address: first + 8, value: 0 });
        w.push(PadWrite { address: first + 12, value: INPUT | PULL_DOWN });
        assert(w@ =~= uart_pad_writes(group));
        w
    }

    /// Pad writes that route an I2C bus's signals to its pins; none for a
    /// bus whose pads are not routed.
    pub fn configure_i2c(&self, device: &I2c) -> (w: Vec<PadWrite>)
        ensures
            w@ == (match i2c_pad_group(*device) {
                Some(g) => i2c_pad_writes(g),
                None => Seq::empty(),
            }),
    {
        let group: u32 = match device {
            I2c::C1 => 0,
            I2c::C2 => 1,
            I2c::C3 => 2,
            I2c::C4 => 3,
            I2c::C5 => 4,
            I2c::C6 => {
                return Vec::new();
            },
        };
        let first = PINMUX_BASE + I2C_PADS_OFFSET + 8 * group;
        let mut w: Vec<PadWrite> = Vec::new();
        w.push(PadWrite { address: first, value: INPUT });
        w.push(PadWrite { address: first + 4, value: INPUT });
        assert(w@ =~= i2c_pad_writes(group));
        w
    }
}

} // verus!
