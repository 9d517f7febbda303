//! Device identity derived from the fuse shadow registers.

use vstd::prelude::*;

verus! {

/// Control register: the state field.
pub const FUSE_CTRL_STATE: u32 = 0xF0000;
/// Control register: state field value of an idle controller.
pub const FUSE_STATE_IDLE: u32 = 0x40000;
/// Control register: the command field.
pub const FUSE_CTRL_CMD: u32 = 0x3;
/// Clock-enable register: bit that makes the fuse registers visible.
pub const FUSE_VISIBLE_BIT: u32 = 1 << 28;

/// An operation of the fuse controller on the fuse array.
#[derive(Clone, Copy, Debug, PartialEq, Eq, Structural)]
pub enum FuseCommand {
    /// Read one fuse word into the read register.
    Read,
    /// Burn the write register into one fuse word.
    Write,
    /// Sense the whole array into the shadow cache.
    Sense,
}

/// Code of a command in the control register's command field.
pub open spec fn command_code(c: FuseCommand) -> u32 {
    match c {
        FuseCommand::Read => 1,
        FuseCommand::Write => 2,
        FuseCommand::Sense => 3,
    }
}

/// Control register value that starts `command`, keeping the other bits of
/// the current value `ctrl`.
pub fn command_control(ctrl: u32, command: FuseCommand) -> (v: u32)
    ensures
        v == (ctrl & !FUSE_CTRL_CMD) | command_code(command),
{
    let code: u32 = match command {
        FuseCommand::Read => 1,
        FuseCommand::Write => 2,
        FuseCommand::Sense => 3,
    };
    (ctrl & !FUSE_CTRL_CMD) | code
}

/// The control register value `ctrl` reports an idle controller.
pub fn is_idle(ctrl: u32) -> (idle: bool)
    ensures
        idle == (ctrl & FUSE_CTRL_STATE == FUSE_STATE_IDLE),
{
    ctrl & FUSE_CTRL_STATE == FUSE_STATE_IDLE
}

/// Clock-enable register value that shows or hides the fuse registers,
/// keeping the other bits of the current value `clk_enable`.
pub fn visibility_control(clk_enable: u32, make_visible: bool) -> (v: u32)
    ensures
        v == (clk_enable & !FUSE_VISIBLE_BIT) | (if make_visible {
            FUSE_VISIBLE_BIT
        } else {
            0
        }),
{
    let bit: u32 = if make_visible {
        FUSE_VISIBLE_BIT
    } else {
        0
    };
    (clk_enable & !FUSE_VISIBLE_BIT) | bit
}

/// The 6-bit field of a lot code read as base-36 digit `i` (digit 0 is
/// the most significant of five).
pub open spec fn lot_digit(lot_code: u32, i: int) -> int {
    ((lot_code >> ((24 - 6 * i) as u32)) & 0x3F) as int
}

/// The first `n` digits of a lot code, read as a base-36 number.
pub open spec fn lot_value(lot_code: u32, n: nat) -> int
    decreases n,
{
    if n == 0 {
        0
    } else {
        lot_value(lot_code, (n - 1) as nat) * 36 + lot_digit(lot_code, n - 1)
    }
}

proof fn lemma_lot_value_bound(lot_code: u32, n: nat)
    requires
        n <= 5,
    ensures
        0 <= lot_value(lot_code, n) < pow64(n),
    decreases n,
{
    if n > 0 {
        lemma_lot_value_bound(lot_code, (n - 1) as nat);
        let d = lot_digit(lot_code, n - 1);
        assert(0 <= d < 64) by {
            let sh = (24 - 6 * (n - 1)) as u32;
            assert((lot_code >> sh) & 0x3F <= 0x3F) by (bit_vector);
        }
        assert(lot_value(lot_code, n) < pow64(n)) by (nonlinear_arith)
            requires
                lot_value(lot_code, n) == lot_value(lot_code, (n - 1) as nat) * 36 + d,
                0 <= lot_value(lot_code, (n - 1) as nat) < pow64((n - 1) as nat),
                pow64(n) == pow64((n - 1) as nat) * 64,
                0 <= d < 64,
        ;
        assert(lot_value(lot_code, n) >= 0) by (nonlinear_arith)
            requires
                lot_value(lot_code, n) == lot_value(lot_code, (n - 1) as nat) * 36 + d,
                0 <= lot_value(lot_code, (n - 1) as nat),
                0 <= d,
        ;
    }
}

/// A loose bound, 64 to the power `n`, on a base-36 number of `n` digits
/// of up to 6 bits each.
pub open spec fn pow64(n: nat) -> int
    decreases n,
{
    if n == 0 {
        1
    } else {
        pow64((n - 1) as nat) * 64
    }
}

/// The lot code folded into 26 bits.
pub open spec fn derived_lot_code(lot_code: u32) -> u64 {
    (lot_value(lot_code, 5) as u64) & 0x03FF_FFFF
}

/// The device id: Y and X coordinates (9 bits each), wafer (6 bits),
/// derived lot code (26 bits) and fab code (6 bits), from the low bits up.
pub open spec fn device_id_of(y: u32, x: u32, wafer: u32, lot_code: u32, fab: u32) -> u64 {
    ((y & 0x1FF) as u64) | (((x & 0x1FF) as u64) << 9u64) | (((wafer & 0x3F) as u64) << 18u64)
        | (derived_lot_code(lot_code) << 24u64) | (((fab & 0x3F) as u64) << 50u64)
}

/// Computes the device id from the raw Y coordinate, X coordinate, wafer
/// id, lot code and fab code fuses.
pub fn get_device_id(y: u32, x: u32, wafer: u32, lot_code: u32, fab: u32) -> (id: u64)
    ensures
        id == device_id_of(y, x, wafer, lot_code, fab),
{
    let mut derived: u64 = 0;
    let mut i: u32 = 0;
    while i < 5
        invariant
            i <= 5,
            derived == lot_value(lot_code, i as nat),
        decreases 5 - i,
    {
        proof {
            lemma_lot_value_bound(lot_code, (i + 1) as nat);
            reveal_with_fuel(pow64, 6);
            assert(pow64(5) == 0x4000_0000);
            lemma_pow64_grows((i + 1) as nat, 5);
        }
        let digit = ((lot_code >> (24 - 6 * i)) & 0x3F) as u64;
        derived = derived * 36 + digit;
        i = i + 1;
    }
    let derived = derived & 0x03FF_FFFF;
    ((y & 0x1FF) as u64) | (((x & 0x1FF) as u64) << 9u64) | (((wafer & 0x3F) as u64) << 18u64) | (
    derived << 24u64) | (((fab & 0x3F) as u64) << 50u64)
}

proof fn lemma_pow64_grows(m: nat, n: nat)
    requires
        m <= n,
    ensures
        pow64(m) <= pow64(n),
        pow64(n) >= 1,
    decreases n,
{
    if n > 0 {
        lemma_pow64_grows(if m < n { m } else { (n - 1) as nat }, (n - 1) as nat);
    }
}

} // verus!
