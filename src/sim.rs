//! A mathematical model of one UART, used to state what the plans do.
//!
//! The model keeps the registers that hold values, the two divisor latch
//! bytes and the receive FIFO. Its transmitter is wired back to its
//! receiver (loopback): a byte written to the transmit holding register
//! shows up in the receive FIFO. Its status registers always report an
//! empty transmitter, and report received data while the FIFO holds any
//! and an empty receive FIFO otherwise.

use vstd::prelude::*;

use crate::regs::{
    Register, FCR_EN_FIFO, FCR_RX_CLR, FCR_TX_CLR, IIR_EN_FIFO, IIR_IS_STA, LCR_DLAB,
    LCR_WORD_LENGTH_8, LSR_RDR, LSR_RX_FIFO_EMPTY, LSR_THRE, LSR_TMTY, VENDOR_RX_IDLE,
    VENDOR_TX_IDLE,
};
use crate::step::{ClockId, Step};
use crate::timing::divisor_of;
use crate::uart::{
    byte_in_steps, byte_out_steps, init_steps, receive_steps, send_steps, wait_idle_steps,
    write_bytes_steps,
};

verus! {

/// State of the simulated UART.
pub struct SimUart {
    pub lcr: u32,
    pub ier: u32,
    pub fcr: u32,
    pub mcr: u32,
    pub spr: u32,
    /// Low byte of the divisor latch.
    pub dll: u32,
    /// High byte of the divisor latch.
    pub dlm: u32,
    /// Bytes waiting in the receive FIFO, oldest first.
    pub rx: Seq<u8>,
}

/// Result of running steps on the model: the final state and the bytes
/// received, or `None` where a wait step can never be satisfied.
pub type SimResult = Option<(SimUart, Seq<u8>)>;

/// The Divisor Latch Access Bit is set.
pub open spec fn latch_open(s: SimUart) -> bool {
    s.lcr & LCR_DLAB != 0
}

/// Reads register `r`: the new state and the value read.
pub open spec fn sim_read(s: SimUart, r: Register) -> (SimUart, u32) {
    match r {
        Register::Thr => if latch_open(s) {
            (s, s.dll)
        } else if s.rx.len() > 0 {
            (SimUart { rx: s.rx.drop_first(), ..s }, s.rx[0] as u32)
        } else {
            (s, 0)
        },
        Register::Ier => (s, if latch_open(s) { s.dlm } else { s.ier }),
        Register::IirFcr => (s, if s.fcr & FCR_EN_FIFO != 0 {
            IIR_EN_FIFO | IIR_IS_STA
        } else {
            IIR_IS_STA
        }),
        Register::Lcr => (s, s.lcr),
        Register::Mcr => (s, s.mcr),
        Register::Spr => (s, s.spr),
        Register::Lsr => (s, if s.rx.len() > 0 {
            LSR_THRE | LSR_TMTY | LSR_RDR
        } else {
            LSR_THRE | LSR_TMTY | LSR_RX_FIFO_EMPTY
        }),
        Register::VendorStatus => (s, if s.rx.len() > 0 {
            VENDOR_TX_IDLE
        } else {
            VENDOR_TX_IDLE | VENDOR_RX_IDLE
        }),
        _ => (s, 0),
    }
}

/// Writes `v` to register `r`.
pub open spec fn sim_write(s: SimUart, r: Register, v: u32) -> SimUart {
    match r {
        Register::Thr => if latch_open(s) {
            SimUart { dll: v, ..s }
        } else {
            SimUart { rx: s.rx.push(v as u8), ..s }
        },
        Register::Ier => if latch_open(s) {
            SimUart { dlm: v, ..s }
        } else {
            SimUart { ier: v, ..s }
        },
        Register::IirFcr => SimUart {
            fcr: v,
            rx: if v & FCR_RX_CLR != 0 { Seq::empty() } else { s.rx },
            ..s
        },
        Register::Lcr => SimUart { lcr: v, ..s },
        Register::Mcr => SimUart { mcr: v, ..s },
        Register::Spr => SimUart { spr: v, ..s },
        _ => s,
    }
}

/// Runs one step.
pub open spec fn sim_step(s: SimUart, step: Step) -> SimResult {
    match step {
        Step::Write(r, v) => Some((sim_write(s, r, v), Seq::empty())),
        Step::Read(r) => Some((sim_read(s, r).0, Seq::empty())),
        Step::ClearBits(r, m) => {
            let (t, v) = sim_read(s, r);
            Some((sim_write(t, r, v & !m), Seq::empty()))
        },
        Step::WaitAll(r, m) => {
            let (t, v) = sim_read(s, r);
            if v & m == m {
                Some((t, Seq::empty()))
            } else {
                None
            }
        },
        Step::Receive(r) => {
            let (t, v) = sim_read(s, r);
            Some((t, seq![v as u8]))
        },
        _ => Some((s, Seq::empty())),
    }
}

/// Runs the first `n` of `steps`.
pub open spec fn sim_prefix(s: SimUart, steps: Seq<Step>, n: nat) -> SimResult
    decreases n,
{
    if n == 0 {
        Some((s, Seq::empty()))
    } else {
        match sim_prefix(s, steps, (n - 1) as nat) {
            None => None,
            Some((t, got)) => match sim_step(t, steps[n - 1]) {
                None => None,
                Some((u, more)) => Some((u, got + more)),
            },
        }
    }
}

/// Runs all of `steps`.
pub open spec fn sim_run(s: SimUart, steps: Seq<Step>) -> SimResult {
    sim_prefix(s, steps, steps.len())
}

/// Runs `steps` after an earlier result, adding to the bytes received.
pub open spec fn sim_then(r: SimResult, steps: Seq<Step>) -> SimResult {
    match r {
        None => None,
        Some((t, got)) => match sim_run(t, steps) {
            None => None,
            Some((u, more)) => Some((u, got + more)),
        },
    }
}

/// The model state after `rx` is replaced.
pub open spec fn with_rx(s: SimUart, rx: Seq<u8>) -> SimUart {
    SimUart { rx, ..s }
}

pub(crate) proof fn lemma_status_bits()
    by (bit_vector)
    ensures
        (LSR_THRE | LSR_TMTY | LSR_RDR) & LSR_THRE == LSR_THRE,
        (LSR_THRE | LSR_TMTY | LSR_RDR) & LSR_TMTY == LSR_TMTY,
        (LSR_THRE | LSR_TMTY | LSR_RDR) & LSR_RDR == LSR_RDR,
        (LSR_THRE | LSR_TMTY | LSR_RDR) & LSR_RX_FIFO_EMPTY != LSR_RX_FIFO_EMPTY,
        (LSR_THRE | LSR_TMTY | LSR_RX_FIFO_EMPTY) & LSR_THRE == LSR_THRE,
        (LSR_THRE | LSR_TMTY | LSR_RX_FIFO_EMPTY) & LSR_TMTY == LSR_TMTY,
        (LSR_THRE | LSR_TMTY | LSR_RX_FIFO_EMPTY) & LSR_RX_FIFO_EMPTY == LSR_RX_FIFO_EMPTY,
        (VENDOR_TX_IDLE | VENDOR_RX_IDLE) & (VENDOR_TX_IDLE | VENDOR_RX_IDLE) == (VENDOR_TX_IDLE
            | VENDOR_RX_IDLE),
        VENDOR_RX_IDLE & VENDOR_TX_IDLE == 0,
        VENDOR_RX_IDLE & VENDOR_RX_IDLE != 0,
        LCR_WORD_LENGTH_8 & LCR_DLAB == 0,
        (LCR_DLAB | LCR_WORD_LENGTH_8) & LCR_DLAB != 0,
        (LCR_DLAB | LCR_WORD_LENGTH_8) & !LCR_DLAB == LCR_WORD_LENGTH_8,
        FCR_EN_FIFO & FCR_RX_CLR == 0,
        (FCR_EN_FIFO | FCR_RX_CLR | FCR_TX_CLR) & FCR_EN_FIFO != 0,
        (FCR_EN_FIFO | FCR_RX_CLR | FCR_TX_CLR) & FCR_RX_CLR != 0,
{
}

/// Runs of the first `n` steps depend on those steps alone.
proof fn lemma_prefix_same_steps(s: SimUart, a: Seq<Step>, b: Seq<Step>, n: nat)
    requires
        n <= a.len(),
        n <= b.len(),
        forall|i: int| 0 <= i < n ==> a[i] == b[i],
    ensures
        sim_prefix(s, a, n) == sim_prefix(s, b, n),
    decreases n,
{
    if n > 0 {
        lemma_prefix_same_steps(s, a, b, (n - 1) as nat);
    }
}

/// Running `a + b` is running `a`, then `b` on the state it left.
pub proof fn lemma_run_concat(s: SimUart, a: Seq<Step>, b: Seq<Step>)
    ensures
        sim_run(s, a + b) == sim_then(sim_run(s, a), b),
    decreases b.len(),
{
    let ab = a + b;
    if b.len() == 0 {
        assert(ab =~= a);
        match sim_run(s, a) {
            None => {},
            Some((t, got)) => {
                assert(got + Seq::<u8>::empty() =~= got);
            },
        }
    } else {
        let b0 = b.drop_last();
        lemma_run_concat(s, a, b0);
        lemma_prefix_same_steps(s, ab, a + b0, (ab.len() - 1) as nat);
        assert(ab[ab.len() - 1] == b[b.len() - 1]);
        match sim_run(s, a) {
            None => {},
            Some((t, got)) => {
                lemma_prefix_same_steps(t, b, b0, b0.len());
                match sim_run(t, b0) {
                    None => {},
                    Some((u, more)) => {
                        match sim_step(u, b[b.len() - 1]) {
                            None => {},
                            Some((w, last)) => {
                                assert(got + more + last =~= got + (more + last));
                            },
                        }
                    },
                }
            },
        }
    }
}

/// Initialization, from any state, leaves the divisor for `baud` in the
/// latch, the latch closed with 8-bit words, no parity and one stop bit,
/// interrupts and flow control off, the FIFOs enabled and the receive FIFO
/// empty.
pub proof fn lemma_init_configures_line(s: SimUart, clock: ClockId, baud: int)
    requires
        baud > 0,
    ensures
        sim_run(s, init_steps(clock, baud)) is Some,
        ({
            let t = sim_run(s, init_steps(clock, baud))->Some_0.0;
            let d = divisor_of(baud) as u32;
            &&& t.lcr == LCR_WORD_LENGTH_8
            &&& !latch_open(t)
            &&& t.ier == 0
            &&& t.mcr == 0
            &&& t.fcr & FCR_EN_FIFO != 0
            &&& t.fcr == FCR_EN_FIFO | FCR_RX_CLR | FCR_TX_CLR
            &&& t.dll == d & 0xFF
            &&& t.dlm == (d >> 8) & 0xFF
            &&& t.rx.len() == 0
        }),
{
    lemma_status_bits();
    let st = init_steps(clock, baud);
    let d = divisor_of(baud) as u32;
    let e = Seq::<u8>::empty();
    assert(e + e =~= e);
    // Enabling the clock and waiting for the transmitter change nothing.
    assert(sim_prefix(s, st, 0) == Some((s, e)));
    assert(sim_prefix(s, st, 1) == Some((s, e)));
    assert(sim_prefix(s, st, 2) == Some((s, e)));
    // The latch closes, so interrupts and flow control can be turned off.
    let quiet = SimUart { lcr: LCR_WORD_LENGTH_8, ..s };
    assert(sim_prefix(s, st, 3) == Some((quiet, e)));
    let quiet = SimUart { ier: 0, ..quiet };
    assert(sim_prefix(s, st, 4) == Some((quiet, e)));
    let quiet = SimUart { mcr: 0, ..quiet };
    assert(sim_prefix(s, st, 5) == Some((quiet, e)));
    // The latch opens and takes the two divisor bytes.
    let open = SimUart { lcr: LCR_DLAB | LCR_WORD_LENGTH_8, ..quiet };
    assert(sim_prefix(s, st, 6) == Some((open, e)));
    let open = SimUart { dll: d & 0xFF, ..open };
    assert(sim_prefix(s, st, 7) == Some((open, e)));
    let open = SimUart { dlm: (d >> 8) & 0xFF, ..open };
    assert(sim_prefix(s, st, 8) == Some((open, e)));
    // The latch closes; the settle read and sleep change nothing.
    let closed = SimUart { lcr: LCR_WORD_LENGTH_8, ..open };
    assert(sim_prefix(s, st, 9) == Some((closed, e)));
    assert(sim_prefix(s, st, 10) == Some((closed, e)));
    assert(sim_prefix(s, st, 11) == Some((closed, e)));
    // The FIFOs are enabled, then settle.
    let fifo = SimUart { fcr: FCR_EN_FIFO, ..closed };
    assert(sim_prefix(s, st, 12) == Some((fifo, e)));
    assert(sim_prefix(s, st, 13) == Some((fifo, e)));
    assert(sim_prefix(s, st, 14) == Some((fifo, e)));
    assert(sim_prefix(s, st, 15) == Some((fifo, e)));
    // Flushing keeps the FIFOs enabled and empties the receive FIFO.
    let flushed = SimUart {
        fcr: FCR_EN_FIFO | FCR_RX_CLR | FCR_TX_CLR,
        rx: Seq::empty(),
        ..fifo
    };
    assert(sim_prefix(s, st, 16) == Some((flushed, e)));
    assert(sim_prefix(s, st, 17) == Some((flushed, e)));
    assert(sim_prefix(s, st, 18) == Some((flushed, e)));
}

/// Initializing twice with the same baud rate leaves the same line
/// configuration both times: divisor, line control, interrupt enable,
/// modem control and FIFO control.
pub proof fn lemma_init_idempotent(s: SimUart, clock: ClockId, baud: int)
    requires
        baud > 0,
    ensures
        sim_run(s, init_steps(clock, baud)) is Some,
        sim_run(sim_run(s, init_steps(clock, baud))->Some_0.0, init_steps(clock, baud)) is Some,
        ({
            let t1 = sim_run(s, init_steps(clock, baud))->Some_0.0;
            let t2 = sim_run(t1, init_steps(clock, baud))->Some_0.0;
            &&& t1.dll == t2.dll
            &&& t1.dlm == t2.dlm
            &&& t1.lcr == t2.lcr
            &&& t1.ier == t2.ier
            &&& t1.mcr == t2.mcr
            &&& t1.fcr == t2.fcr
        }),
{
    lemma_init_configures_line(s, clock, baud);
    lemma_init_configures_line(sim_run(s, init_steps(clock, baud))->Some_0.0, clock, baud);
}

/// With the latch closed, sending `bytes` appends them to the receive FIFO.
proof fn lemma_send(s: SimUart, bytes: Seq<u8>)
    requires
        !latch_open(s),
    ensures
        sim_run(s, send_steps(bytes)) == Some((with_rx(s, s.rx + bytes), Seq::<u8>::empty())),
    decreases bytes.len(),
{
    let e = Seq::<u8>::empty();
    if bytes.len() == 0 {
        assert(s.rx + bytes =~= s.rx);
        assert(with_rx(s, s.rx + bytes) == s);
    } else {
        let b = bytes.last();
        let front = bytes.drop_last();
        lemma_send(s, front);
        lemma_run_concat(s, send_steps(front), byte_out_steps(b));
        let t = with_rx(s, s.rx + front);
        lemma_status_bits();
        assert(e + e =~= e);
        assert(sim_prefix(t, byte_out_steps(b), 0) == Some((t, e)));
        assert(sim_prefix(t, byte_out_steps(b), 1) == Some((t, e)));
        assert(t.rx.push(b) =~= s.rx + bytes);
        assert(sim_prefix(t, byte_out_steps(b), 2) == Some((with_rx(s, s.rx + bytes), e)));
    }
}

/// With the latch closed, taking `count` bytes returns the oldest `count`
/// bytes of the receive FIFO and removes them from it.
proof fn lemma_receive(s: SimUart, count: nat)
    requires
        !latch_open(s),
        count <= s.rx.len(),
    ensures
        sim_run(s, receive_steps(count)) == Some(
            (with_rx(s, s.rx.subrange(count as int, s.rx.len() as int)), s.rx.take(count as int)),
        ),
    decreases count,
{
    let e = Seq::<u8>::empty();
    if count == 0 {
        assert(s.rx.subrange(0, s.rx.len() as int) =~= s.rx);
        assert(s.rx.take(0) =~= e);
        assert(with_rx(s, s.rx) == s);
    } else {
        let k = (count - 1) as nat;
        lemma_receive(s, k);
        lemma_run_concat(s, receive_steps(k), byte_in_steps());
        let rest = s.rx.subrange(k as int, s.rx.len() as int);
        let t = with_rx(s, rest);
        lemma_status_bits();
        assert(sim_prefix(t, byte_in_steps(), 0) == Some((t, e)));
        assert(sim_prefix(t, byte_in_steps(), 1) == Some((t, e)));
        let u = with_rx(s, rest.drop_first());
        assert(rest.drop_first() =~= s.rx.subrange(count as int, s.rx.len() as int));
        assert(e + seq![rest[0]] =~= seq![rest[0]]);
        assert(sim_prefix(t, byte_in_steps(), 2) == Some((u, seq![rest[0]])));
        assert(s.rx.take(k as int) + seq![rest[0]] =~= s.rx.take(count as int));
    }
}

/// On a loopback UART with the latch closed and nothing waiting to be
/// read, reading back as many bytes as were written returns exactly the
/// bytes written, in order, and leaves the receive FIFO empty.
pub proof fn lemma_loopback_round_trip(s: SimUart, bytes: Seq<u8>)
    requires
        !latch_open(s),
        s.rx.len() == 0,
    ensures
        sim_run(s, write_bytes_steps(bytes)) is Some,
        ({
            let t = sim_run(s, write_bytes_steps(bytes))->Some_0.0;
            sim_run(t, receive_steps(bytes.len())) == Some((with_rx(t, Seq::empty()), bytes))
        }),
{
    let e = Seq::<u8>::empty();
    let wait = seq![Step::WaitAll(Register::Lsr, LSR_TMTY)];
    assert(write_bytes_steps(bytes) =~= send_steps(bytes) + wait);
    lemma_send(s, bytes);
    lemma_run_concat(s, send_steps(bytes), wait);
    let t = with_rx(s, s.rx + bytes);
    assert(s.rx + bytes =~= bytes);
    lemma_status_bits();
    assert(e + e =~= e);
    assert(sim_prefix(t, wait, 0) == Some((t, e)));
    assert(sim_prefix(t, wait, 1) == Some((t, e)));
    lemma_receive(t, bytes.len());
    assert(t.rx.subrange(bytes.len() as int, bytes.len() as int) =~= e);
    assert(t.rx.take(bytes.len() as int) =~= bytes);
}

/// Waiting for the receive path to go idle succeeds exactly when no unread
/// byte is left, and then changes nothing.
pub proof fn lemma_wait_rx_idle(s: SimUart)
    ensures
        sim_run(s, wait_idle_steps(VENDOR_RX_IDLE)) is Some <==> s.rx.len() == 0,
        s.rx.len() == 0 ==> sim_run(s, wait_idle_steps(VENDOR_RX_IDLE)) == Some(
            (s, Seq::<u8>::empty()),
        ),
{
    lemma_status_bits();
    let e = Seq::<u8>::empty();
    let st = wait_idle_steps(VENDOR_RX_IDLE);
    assert(st =~= seq![Step::WaitAll(Register::Lsr, LSR_RX_FIFO_EMPTY)]);
    assert(e + e =~= e);
    assert(sim_prefix(s, st, 0) == Some((s, e)));
}

} // verus!
