//! Hardware access layer for the Tegra210 serial transceivers (UARTs),
//! the timer counters and a few small display helpers.
//!
//! Register access itself (volatile reads and writes at physical
//! addresses) is left to the caller: the driver is expressed as plans of
//! register steps and a state machine that executes them, one register
//! access at a time, with bounded polling.

pub mod display;
pub mod font;
pub mod drive;
pub mod fuse;
pub mod late;
pub mod pinmux;
pub mod regs;
pub mod sim;
pub mod step;
pub mod timer;
pub mod timing;
pub mod transfer;
pub mod uart;
pub mod writer;
