//! The UART descriptors and the plans of the UART operations.

use vstd::prelude::*;

use crate::regs::{
    Register, Registers, FCR_EN_FIFO, FCR_RX_CLR, FCR_TX_CLR, LCR_DLAB, LCR_WORD_LENGTH_8,
    LSR_RDR, LSR_RX_FIFO_EMPTY, LSR_THRE, LSR_TMTY, VENDOR_RX_IDLE, VENDOR_TX_IDLE,
};
use crate::step::{ClockId, Step};
use crate::transfer::{started, Transfer};
use crate::timing::{
    cycles_time, divisor, divisor_of, lemma_wait_times_monotonic, symbols_time, wait_cycles,
    wait_symbols,
};

verus! {

/// Base address of the UART A registers.
pub const UART_A_BASE: u32 = 0x7000_6000;
/// Base address of the UART B registers.
pub const UART_B_BASE: u32 = 0x7000_6040;
/// Base address of the UART C registers.
pub const UART_C_BASE: u32 = 0x7000_6200;
/// Base address of the UART D registers.
pub const UART_D_BASE: u32 = 0x7000_6300;
/// Base address of the UART E registers (in the audio processing engine).
pub const UART_E_BASE: u32 = 0x7000_6400;

/// State of a UART handle that no finished initialization vouches for.
#[derive(Clone, Copy, Debug)]
pub struct Unready;

/// State of a UART handle whose initialization has finished. Only this
/// module can make one, and it is neither `Copy` nor `Clone`, so a ready
/// handle has a single owner.
#[derive(Debug)]
pub struct Ready {
    vouched: (),
}

/// One physical UART: its register block, the clock that feeds it, and
/// whether it has been initialized.
///
/// `Uart<Unready>` is a descriptor: it names the hardware and can only be
/// initialized. `Uart<Ready>` is the single owner that transfers data; it
/// comes only from `Uart::ready`, after a finished initialization.
#[derive(Clone, Copy, Debug)]
pub struct Uart<S> {
    pub registers: Registers,
    pub clock: ClockId,
    pub state: S,
}

/// Steps that wait for one byte of room and then queue `byte`.
pub open spec fn byte_out_steps(byte: u8) -> Seq<Step> {
    seq![Step::WaitAll(Register::Lsr, LSR_THRE), Step::Write(Register::Thr, byte as u32)]
}

/// Steps that wait for one received byte and then take it.
pub open spec fn byte_in_steps() -> Seq<Step> {
    seq![Step::WaitAll(Register::Lsr, LSR_RDR), Step::Receive(Register::Thr)]
}

/// Steps that queue each byte of `bytes` in order.
pub open spec fn send_steps(bytes: Seq<u8>) -> Seq<Step>
    decreases bytes.len(),
{
    if bytes.len() == 0 {
        seq![]
    } else {
        send_steps(bytes.drop_last()) + byte_out_steps(bytes.last())
    }
}

/// Steps that take `count` received bytes in order.
pub open spec fn receive_steps(count: nat) -> Seq<Step>
    decreases count,
{
    if count == 0 {
        seq![]
    } else {
        receive_steps((count - 1) as nat) + byte_in_steps()
    }
}

/// Steps that send `bytes` and then wait until the shift register has
/// drained, so that every byte is on the wire.
pub open spec fn write_bytes_steps(bytes: Seq<u8>) -> Seq<Step> {
    send_steps(bytes).push(Step::WaitAll(Register::Lsr, LSR_TMTY))
}

/// Steps that wait for the line states named in `status` (vendor-status
/// bits): transmit idle waits for an empty transmit shift register,
/// receive idle waits for an empty receive FIFO (no unread data).
pub open spec fn wait_idle_steps(status: u32) -> Seq<Step> {
    let tx = if status & VENDOR_TX_IDLE != 0 {
        seq![Step::WaitAll(Register::Lsr, LSR_TMTY)]
    } else {
        seq![]
    };
    let rx = if status & VENDOR_RX_IDLE != 0 {
        seq![Step::WaitAll(Register::Lsr, LSR_RX_FIFO_EMPTY)]
    } else {
        seq![]
    };
    tx + rx
}

/// The initialization handshake for `baud` on the UART fed by `clock`.
///
/// The divisor latch is closed before interrupts and flow control are
/// turned off, so that those writes reach the interrupt-enable and modem
/// control registers whatever state the line control register was left in.
pub open spec fn init_steps(clock: ClockId, baud: int) -> Seq<Step> {
    let d = divisor_of(baud) as u32;
    seq![
        Step::EnableClock(clock),
        Step::WaitAll(Register::Lsr, LSR_TMTY),
        Step::Write(Register::Lcr, LCR_WORD_LENGTH_8),
        Step::Write(Register::Ier, 0),
        Step::Write(Register::Mcr, 0),
        Step::Write(Register::Lcr, LCR_DLAB | LCR_WORD_LENGTH_8),
        Step::Write(Register::Thr, d & 0xFF),
        Step::Write(Register::Ier, (d >> 8) & 0xFF),
        Step::ClearBits(Register::Lcr, LCR_DLAB),
        Step::Read(Register::Spr),
        Step::Sleep(symbols_time(baud, 3) as u32),
        Step::Write(Register::IirFcr, FCR_EN_FIFO),
        Step::Read(Register::Spr),
        Step::Sleep(cycles_time(baud, 3) as u32),
        Step::WaitAll(Register::Lsr, LSR_TMTY),
        Step::Write(Register::IirFcr, FCR_EN_FIFO | FCR_RX_CLR | FCR_TX_CLR),
        Step::Sleep(cycles_time(baud, 32) as u32),
        Step::WaitAll(Register::VendorStatus, VENDOR_TX_IDLE | VENDOR_RX_IDLE),
    ]
}

impl Uart<Unready> {
    /// UART A.
    pub fn a() -> (u: Uart<Unready>)
        ensures
            u.registers.base == UART_A_BASE,
            u.clock == ClockId::UartA,
    {
        Uart { registers: Registers { base: UART_A_BASE }, clock: ClockId::UartA, state: Unready }
    }

    /// UART B.
    pub fn b() -> (u: Uart<Unready>)
        ensures
            u.registers.base == UART_B_BASE,
            u.clock == ClockId::UartB,
    {
        Uart { registers: Registers { base: UART_B_BASE }, clock: ClockId::UartB, state: Unready }
    }

    /// UART C.
    pub fn c() -> (u: Uart<Unready>)
        ensures
            u.registers.base == UART_C_BASE,
            u.clock == ClockId::UartC,
    {
        Uart { registers: Registers { base: UART_C_BASE }, clock: ClockId::UartC, state: Unready }
    }

    /// UART D.
    pub fn d() -> (u: Uart<Unready>)
        ensures
            u.registers.base == UART_D_BASE,
            u.clock == ClockId::UartD,
    {
        Uart { registers: Registers { base: UART_D_BASE }, clock: ClockId::UartD, state: Unready }
    }

    /// UART E, the one in the audio processing engine.
    pub fn e() -> (u: Uart<Unready>)
        ensures
            u.registers.base == UART_E_BASE,
            u.clock == ClockId::UartApe,
    {
        Uart { registers: Registers { base: UART_E_BASE }, clock: ClockId::UartApe, state: Unready }
    }

    /// Plan of the initialization handshake for `baud`.
    pub fn init_plan(&self, baud: u32) -> (p: Vec<Step>)
        requires
            baud > 0,
        ensures
            p@ == init_steps(self.clock, baud as int),
    {
        let d = divisor(baud);
        let symbols3 = wait_symbols(baud, 3);
        let cycles3 = wait_cycles(baud, 3);
        let cycles32 = wait_cycles(baud, 32);
        proof {
            lemma_wait_times_monotonic(1, baud as int, 3, 3);
            lemma_wait_times_monotonic(1, baud as int, 32, 32);
        }
        let mut p: Vec<Step> = Vec::new();
        p.push(Step::EnableClock(self.clock));
        p.push(Step::WaitAll(Register::Lsr, LSR_TMTY));
        p.push(Step::Write(Register::Lcr, LCR_WORD_LENGTH_8));
        p.push(Step::Write(Register::Ier, 0));
        p.push(Step::Write(Register::Mcr, 0));
        p.push(Step::Write(Register::Lcr, LCR_DLAB | LCR_WORD_LENGTH_8));
        p.push(Step::Write(Register::Thr, d & 0xFF));
        p.push(Step::Write(Register::Ier, (d >> 8) & 0xFF));
        p.push(Step::ClearBits(Register::Lcr, LCR_DLAB));
        p.push(Step::Read(Register::Spr));
        p.push(Step::Sleep(symbols3 as u32));
        p.push(Step::Write(Register::IirFcr, FCR_EN_FIFO));
        p.push(Step::Read(Register::Spr));
        p.push(Step::Sleep(cycles3 as u32));
        p.push(Step::WaitAll(Register::Lsr, LSR_TMTY));
        p.push(Step::Write(Register::IirFcr, FCR_EN_FIFO | FCR_RX_CLR | FCR_TX_CLR));
        p.push(Step::Sleep(cycles32 as u32));
        p.push(Step::WaitAll(Register::VendorStatus, VENDOR_TX_IDLE | VENDOR_RX_IDLE));
        assert(p@ =~= init_steps(self.clock, baud as int));
        p
    }

    /// Initializes the UART for `baud`: enables its clock, programs the
    /// divisor for 8 data bits, no parity and one stop bit, enables and
    /// flushes the FIFOs and waits until both paths are idle.
    pub fn init(&self, baud: u32, max_polls: u32) -> (t: Transfer)
        requires
            baud > 0,
        ensures
            t.wf(),
            t@ == started(init_steps(self.clock, baud as int), max_polls as nat, Some((self.clock, baud))),
    {
        Transfer::for_init(self.init_plan(baud), self.clock, baud, max_polls)
    }

    /// The ready handle of this UART, given its initialization transfer:
    /// granted only when `init` initializes this UART (same clock, hence
    /// the same register block) and has finished; otherwise the
    /// descriptor is handed back.
    pub fn ready(self, init: &Transfer) -> (r: Result<Uart<Ready>, Uart<Unready>>)
        requires
            init.wf(),
        ensures
            r is Ok <==> (init@.stage is Finished && init@.init_of is Some
                && init@.init_of->Some_0.0 == self.clock),
            r matches Ok(u) ==> u.registers == self.registers && u.clock == self.clock,
            r matches Err(u) ==> u == self,
    {
        let finished = init.is_finished();
        match init.init_of() {
            Some((clock, _)) => {
                if finished && clock == self.clock {
                    Ok(Uart { registers: self.registers, clock: self.clock, state: Ready { vouched: () } })
                } else {
                    Err(self)
                }
            },
            None => Err(self),
        }
    }
}

impl Uart<Ready> {
    /// Plan that waits for room in the transmitter and queues `byte`.
    pub fn write_byte_plan(&self, byte: u8) -> (p: Vec<Step>)
        ensures
            p@ == byte_out_steps(byte),
    {
        let mut p: Vec<Step> = Vec::new();
        p.push(Step::WaitAll(Register::Lsr, LSR_THRE));
        p.push(Step::Write(Register::Thr, byte as u32));
        assert(p@ =~= byte_out_steps(byte));
        p
    }

    /// Plan that waits for a received byte and takes it.
    pub fn read_byte_plan(&self) -> (p: Vec<Step>)
        ensures
            p@ == byte_in_steps(),
    {
        let mut p: Vec<Step> = Vec::new();
        p.push(Step::WaitAll(Register::Lsr, LSR_RDR));
        p.push(Step::Receive(Register::Thr));
        assert(p@ =~= byte_in_steps());
        p
    }

    /// Plan that takes `count` received bytes, one at a time.
    pub fn read_plan(&self, count: usize) -> (p: Vec<Step>)
        requires
            2 * count <= usize::MAX,
        ensures
            p@ == receive_steps(count as nat),
    {
        let mut p: Vec<Step> = Vec::new();
        let mut i: usize = 0;
        while i < count
            invariant
                i <= count,
                2 * count <= usize::MAX,
                p@ == receive_steps(i as nat),
            decreases count - i,
        {
            p.push(Step::WaitAll(Register::Lsr, LSR_RDR));
            p.push(Step::Receive(Register::Thr));
            i = i + 1;
            assert(p@ =~= receive_steps(i as nat));
        }
        p
    }

    /// Plan that sends `bytes` in order and then waits until the last one
    /// has left the shift register.
    pub fn write_bytes_plan(&self, bytes: &[u8]) -> (p: Vec<Step>)
        requires
            2 * bytes@.len() + 1 <= usize::MAX,
        ensures
            p@ == write_bytes_steps(bytes@),
    {
        let mut p: Vec<Step> = Vec::new();
        let mut i: usize = 0;
        while i < bytes.len()
            invariant
                i <= bytes@.len(),
                p@ == send_steps(bytes@.take(i as int)),
            decreases bytes@.len() - i,
        {
            p.push(Step::WaitAll(Register::Lsr, LSR_THRE));
            p.push(Step::Write(Register::Thr, bytes[i] as u32));
            assert(bytes@.take(i + 1).drop_last() =~= bytes@.take(i as int));
            i = i + 1;
            assert(p@ =~= send_steps(bytes@.take(i as int)));
        }
        assert(bytes@.take(i as int) =~= bytes@);
        p.push(Step::WaitAll(Register::Lsr, LSR_TMTY));
        p
    }

    /// Plan that waits for the line states named in `status`, a
    /// combination of `VENDOR_TX_IDLE` (transmit shift register empty) and
    /// `VENDOR_RX_IDLE` (receive FIFO empty).
    pub fn wait_idle_plan(&self, status: u32) -> (p: Vec<Step>)
        ensures
            p@ == wait_idle_steps(status),
    {
        let mut p: Vec<Step> = Vec::new();
        if status & VENDOR_TX_IDLE != 0 {
            p.push(Step::WaitAll(Register::Lsr, LSR_TMTY));
        }
        if status & VENDOR_RX_IDLE != 0 {
            p.push(Step::WaitAll(Register::Lsr, LSR_RX_FIFO_EMPTY));
        }
        assert(p@ =~= wait_idle_steps(status));
        p
    }


    /// Sends one byte once the transmit holding register has room.
    pub fn write_byte(&self, byte: u8, max_polls: u32) -> (t: Transfer)
        ensures
            t.wf(),
            t@ == started(byte_out_steps(byte), max_polls as nat, None),
    {
        Transfer::new(self.write_byte_plan(byte), max_polls)
    }

    /// Receives one byte once data is ready; the byte ends up in the
    /// transfer's received bytes.
    pub fn read_byte(&self, max_polls: u32) -> (t: Transfer)
        ensures
            t.wf(),
            t@ == started(byte_in_steps(), max_polls as nat, None),
    {
        Transfer::new(self.read_byte_plan(), max_polls)
    }

    /// Receives `count` bytes, one at a time.
    pub fn read(&self, count: usize, max_polls: u32) -> (t: Transfer)
        requires
            2 * count <= usize::MAX,
        ensures
            t.wf(),
            t@ == started(receive_steps(count as nat), max_polls as nat, None),
    {
        Transfer::new(self.read_plan(count), max_polls)
    }

    /// Sends `bytes` in order and waits until they are all on the wire.
    pub fn write_bytes(&self, bytes: &[u8], max_polls: u32) -> (t: Transfer)
        requires
            2 * bytes@.len() + 1 <= usize::MAX,
        ensures
            t.wf(),
            t@ == started(write_bytes_steps(bytes@), max_polls as nat, None),
    {
        Transfer::new(self.write_bytes_plan(bytes), max_polls)
    }

    /// Blocks until the line has entered the states named in `status`, a
    /// combination of `VENDOR_TX_IDLE` (transmit shift register empty) and
    /// `VENDOR_RX_IDLE` (receive FIFO empty).
    pub fn wait_idle(&self, status: u32, max_polls: u32) -> (t: Transfer)
        ensures
            t.wf(),
            t@ == started(wait_idle_steps(status), max_polls as nat, None),
    {
        Transfer::new(self.wait_idle_plan(status), max_polls)
    }
}

} // verus!
