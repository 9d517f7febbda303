//! The register-level steps that the UART operations are made of.

use vstd::prelude::*;

use crate::regs::Register;

verus! {

/// Identity of the gated clock that feeds one UART.
#[derive(Clone, Copy, Debug, PartialEq, Eq, Structural)]
pub enum ClockId {
    UartA,
    UartB,
    UartC,
    UartD,
    UartApe,
}

/// One step of a register-level plan.
#[derive(Clone, Copy, Debug, PartialEq, Eq, Structural)]
pub enum Step {
    /// Enable the clock of the device.
    EnableClock(ClockId),
    /// Write a value to a register.
    Write(Register, u32),
    /// Read a register and discard the value (a settle read).
    Read(Register),
    /// Read a register and write it back with the given bits cleared.
    ClearBits(Register, u32),
    /// Read a register until all of the given bits are set.
    WaitAll(Register, u32),
    /// Busy-wait for the given number of microseconds.
    Sleep(u32),
    /// Read a register and keep its low byte as received data.
    Receive(Register),
}

} // verus!
