//! The UART model with a transmitter that comes ready late.
//!
//! `LateUart` behaves as `SimUart`, except that its transmitter reports
//! busy (holding and shift registers not empty, transmit path not idle)
//! for its first `busy` status reads. A transfer whose first register read
//! waits for the transmitter polls through that delay and then ends where
//! it ends on the model without delay, as long as each wait may poll more
//! than `busy` times.

use vstd::prelude::*;

use crate::drive::{
    actions_upto, done_upto, drive, lemma_drive_add, lemma_transfer_follows_model, perform,
    plan_actions, step_actions,
};
use crate::drive::{lemma_init_transfer_configures_line, lemma_transfers_round_trip};
use crate::regs::{
    Register, FCR_EN_FIFO, LCR_WORD_LENGTH_8, LSR_RDR, LSR_RX_FIFO_EMPTY, LSR_THRE, LSR_TMTY,
    VENDOR_TX_IDLE,
};
use crate::sim::{latch_open, lemma_init_configures_line, lemma_loopback_round_trip};
use crate::timing::divisor_of;
use crate::uart::{byte_out_steps, init_steps, receive_steps, send_steps, write_bytes_steps};
use crate::sim::{lemma_status_bits, sim_prefix, sim_read, sim_run, SimUart};
use crate::step::{ClockId, Step};
use crate::transfer::{pending_action, resumed, started, Stage, TransferView};

verus! {

/// A simulated UART whose transmitter reports busy for `busy` more status
/// reads.
pub struct LateUart {
    pub uart: SimUart,
    pub busy: nat,
}

/// Reads register `r`: the new state and the value read.
pub open spec fn late_read(h: LateUart, r: Register) -> (LateUart, u32) {
    let (u, v) = sim_read(h.uart, r);
    if h.busy > 0 && r is Lsr {
        (LateUart { uart: u, busy: (h.busy - 1) as nat }, v & !(LSR_THRE | LSR_TMTY))
    } else if h.busy > 0 && r is VendorStatus {
        (LateUart { uart: u, busy: (h.busy - 1) as nat }, v & !VENDOR_TX_IDLE)
    } else {
        (LateUart { uart: u, busy: h.busy }, v)
    }
}

/// Performs `a` on the delayed model: its new state and the reply.
pub open spec fn late_perform(h: LateUart, a: crate::transfer::Action) -> (LateUart, u32) {
    match a {
        crate::transfer::Action::Read(r) => late_read(h, r),
        _ => {
            let (u, reply) = perform(h.uart, a);
            (LateUart { uart: u, busy: h.busy }, reply)
        },
    }
}

/// The transfer and the delayed model after `n` actions.
pub open spec fn late_drive(v: TransferView, h: LateUart, n: nat) -> (TransferView, LateUart)
    decreases n,
{
    if n == 0 {
        (v, h)
    } else {
        let (h1, reply) = late_perform(h, pending_action(v));
        late_drive(resumed(v, reply), h1, (n - 1) as nat)
    }
}

/// A step that reads no register.
pub open spec fn reads_nothing(step: Step) -> bool {
    step is EnableClock || step is Sleep || step is Write
}

proof fn lemma_busy_bits()
    by (bit_vector)
    ensures
        ((LSR_THRE | LSR_TMTY | LSR_RDR) & !(LSR_THRE | LSR_TMTY)) & LSR_TMTY != LSR_TMTY,
        ((LSR_THRE | LSR_TMTY | LSR_RDR) & !(LSR_THRE | LSR_TMTY)) & LSR_THRE != LSR_THRE,
        ((LSR_THRE | LSR_TMTY | LSR_RX_FIFO_EMPTY) & !(LSR_THRE | LSR_TMTY)) & LSR_TMTY
            != LSR_TMTY,
        ((LSR_THRE | LSR_TMTY | LSR_RX_FIFO_EMPTY) & !(LSR_THRE | LSR_TMTY)) & LSR_THRE
            != LSR_THRE,
{
}

/// Without delay left, the delayed model is the model.
proof fn lemma_late_drive_no_delay(v: TransferView, s: SimUart, n: nat)
    ensures
        late_drive(v, LateUart { uart: s, busy: 0 }, n) == (
            drive(v, s, n).0,
            LateUart { uart: drive(v, s, n).1, busy: 0 },
        ),
    decreases n,
{
    if n > 0 {
        let (s1, reply) = perform(s, pending_action(v));
        lemma_late_drive_no_delay(resumed(v, reply), s1, (n - 1) as nat);
    }
}

proof fn lemma_late_drive_add(v: TransferView, h: LateUart, a: nat, b: nat)
    ensures
        late_drive(v, h, a + b) == late_drive(late_drive(v, h, a).0, late_drive(v, h, a).1, b),
    decreases a,
{
    if a > 0 {
        let (h1, reply) = late_perform(h, pending_action(v));
        lemma_late_drive_add(resumed(v, reply), h1, (a - 1) as nat, b);
        assert((a + b - 1) as nat == (a - 1) as nat + b);
    }
}

/// Steps that read nothing run on the delayed model as on the model,
/// keeping the delay.
proof fn lemma_late_prefix(
    s: SimUart,
    busy: nat,
    steps: Seq<Step>,
    max_polls: nat,
    init_of: Option<(ClockId, u32)>,
    i: nat,
)
    requires
        i < steps.len(),
        forall|k: int| 0 <= k < i ==> reads_nothing(#[trigger] steps[k]),
    ensures
        sim_prefix(s, steps, i) is Some,
        actions_upto(steps, i) == i,
        late_drive(started(steps, max_polls, init_of), LateUart { uart: s, busy }, i) == (
            done_upto(steps, max_polls, init_of, i, Seq::empty()),
            LateUart { uart: sim_prefix(s, steps, i)->Some_0.0, busy },
        ),
        sim_prefix(s, steps, i)->Some_0.1 == Seq::<u8>::empty(),
    decreases i,
{
    let e = Seq::<u8>::empty();
    if i == 0 {
        assert(started(steps, max_polls, init_of) == done_upto(steps, max_polls, init_of, 0, e));
    } else {
        let j = (i - 1) as nat;
        lemma_late_prefix(s, busy, steps, max_polls, init_of, j);
        assert(reads_nothing(steps[j as int]));
        assert(e + e =~= e);
        lemma_late_drive_add(started(steps, max_polls, init_of), LateUart { uart: s, busy }, j, 1);
        reveal_with_fuel(late_drive, 2);
    }
}

/// At a wait for an empty transmitter, each read while the delay lasts
/// fails and counts one poll.
proof fn lemma_late_polls(v: TransferView, t: SimUart, m: u32, k: nat, i: nat)
    requires
        view_at_wait(v, m),
        m == LSR_TMTY || m == LSR_THRE,
        v.polls == 0,
        i <= k,
        k < v.max_polls,
    ensures
        late_drive(v, LateUart { uart: t, busy: k }, i) == (
            TransferView { polls: i, ..v },
            LateUart { uart: t, busy: (k - i) as nat },
        ),
    decreases i,
{
    if i > 0 {
        let j = (i - 1) as nat;
        lemma_late_polls(v, t, m, k, j);
        lemma_busy_bits();
        let w = TransferView { polls: j, ..v };
        lemma_late_drive_add(v, LateUart { uart: t, busy: k }, j, 1);
        reveal_with_fuel(late_drive, 2);
        assert(late_drive(w, LateUart { uart: t, busy: (k - j) as nat }, 1) == (
            TransferView { polls: i, ..v },
            LateUart { uart: t, busy: (k - i) as nat },
        ));
    }
}

/// The transfer waits, at its current step, for mask `m` of the line
/// status register.
pub open spec fn view_at_wait(v: TransferView, m: u32) -> bool {
    &&& v.stage == Stage::Issued
    &&& v.current < v.steps.len()
    &&& v.steps[v.current as int] == Step::WaitAll(Register::Lsr, m)
}

/// A transfer of a plan that the model runs to completion, and whose
/// first register read waits for an empty transmitter, runs on a UART
/// whose transmitter reports busy for `busy` status reads just as on one
/// without delay, `busy` actions later, when each wait may poll more than
/// `busy` times.
pub proof fn lemma_late_transfer_follows_model(
    s: SimUart,
    busy: nat,
    steps: Seq<Step>,
    max_polls: nat,
    init_of: Option<(ClockId, u32)>,
    j: nat,
    m: u32,
)
    requires
        sim_run(s, steps) is Some,
        busy < max_polls,
        j < steps.len(),
        forall|k: int| 0 <= k < j ==> reads_nothing(#[trigger] steps[k]),
        steps[j as int] == Step::WaitAll(Register::Lsr, m),
        m == LSR_TMTY || m == LSR_THRE,
    ensures
        ({
            let v0 = started(steps, max_polls, init_of);
            let (v, u) = drive(v0, s, plan_actions(steps));
            late_drive(v0, LateUart { uart: s, busy }, plan_actions(steps) + busy) == (
                v,
                LateUart { uart: u, busy: 0 },
            )
        }),
{
    let v0 = started(steps, max_polls, init_of);
    let h0 = LateUart { uart: s, busy };
    let n = plan_actions(steps);
    lemma_late_prefix(s, busy, steps, max_polls, init_of, j);
    lemma_transfer_follows_model(s, steps, max_polls, init_of);
    let vj = done_upto(steps, max_polls, init_of, j, Seq::empty());
    let tj = sim_prefix(s, steps, j)->Some_0.0;
    // The immediate run reaches the same point after the same actions.
    lemma_immediate_prefix(s, steps, max_polls, init_of, j);
    lemma_late_polls(vj, tj, m, busy, busy);
    let vw = TransferView { polls: busy, ..vj };
    // Once the delay is over, the wait succeeds on both and the polls are
    // forgotten.
    lemma_status_bits();
    assert(sim_read(tj, Register::Lsr).1 & m == m);
    assert(resumed(vw, sim_read(tj, Register::Lsr).1) == resumed(vj, sim_read(tj, Register::Lsr).1));
    reveal_with_fuel(drive, 2);
    reveal_with_fuel(late_drive, 2);
    lemma_actions_grow(steps, j + 1, steps.len());
    lemma_status_bits();
    let rest = (n - j - 1) as nat;
    let (v1, t1) = drive(vj, tj, 1);
    assert(late_drive(vw, LateUart { uart: tj, busy: 0 }, 1) == (v1, LateUart { uart: t1, busy: 0 }));
    lemma_late_drive_no_delay(v1, t1, rest);
    lemma_drive_add(v0, s, j, 1 + rest);
    lemma_drive_add(vj, tj, 1, rest);
    lemma_late_drive_add(v0, h0, j, busy);
    lemma_late_drive_add(v0, h0, j + busy, 1);
    lemma_late_drive_add(v0, h0, j + busy + 1, rest);
    assert(n + busy == j + busy + 1 + rest);
}

proof fn lemma_actions_grow(steps: Seq<Step>, a: nat, b: nat)
    requires
        a <= b <= steps.len(),
    ensures
        actions_upto(steps, a) <= actions_upto(steps, b),
        a <= actions_upto(steps, a),
    decreases b,
{
    if b > 0 {
        if a < b {
            lemma_actions_grow(steps, a, (b - 1) as nat);
        } else {
            lemma_actions_grow(steps, (a - 1) as nat, (b - 1) as nat);
        }
        assert(step_actions(steps[b - 1]) >= 1);
    }
}

proof fn lemma_immediate_prefix(
    s: SimUart,
    steps: Seq<Step>,
    max_polls: nat,
    init_of: Option<(ClockId, u32)>,
    j: nat,
)
    requires
        j < steps.len(),
        forall|k: int| 0 <= k < j ==> reads_nothing(#[trigger] steps[k]),
    ensures
        drive(started(steps, max_polls, init_of), s, j) == (
            done_upto(steps, max_polls, init_of, j, Seq::empty()),
            sim_prefix(s, steps, j)->Some_0.0,
        ),
{
    lemma_late_prefix(s, 0, steps, max_polls, init_of, j);
    lemma_late_drive_no_delay(started(steps, max_polls, init_of), s, j);
}

/// A transfer from `Uart::init` on a UART whose transmitter reports busy
/// for its first `busy` status reads, with more than `busy` polls allowed
/// per wait, finishes `busy` actions later than without delay, leaving the
/// divisor for `baud` in the latch, the latch closed with 8-bit words, no
/// parity and one stop bit, interrupts and flow control off, the FIFOs
/// enabled and the receive FIFO empty.
pub proof fn lemma_late_init_configures_line(
    s: SimUart,
    busy: nat,
    clock: ClockId,
    baud: u32,
    max_polls: nat,
)
    requires
        baud > 0,
        busy < max_polls,
    ensures
        ({
            let steps = init_steps(clock, baud as int);
            let v0 = started(steps, max_polls, Some((clock, baud)));
            let (v, h) = late_drive(v0, LateUart { uart: s, busy }, plan_actions(steps) + busy);
            let t = h.uart;
            let d = divisor_of(baud as int) as u32;
            &&& v.stage == Stage::Finished
            &&& h.busy == 0
            &&& t.lcr == LCR_WORD_LENGTH_8
            &&& !latch_open(t)
            &&& t.ier == 0
            &&& t.mcr == 0
            &&& t.fcr & FCR_EN_FIFO != 0
            &&& t.dll == d & 0xFF
            &&& t.dlm == (d >> 8) & 0xFF
            &&& t.rx.len() == 0
        }),
{
    let steps = init_steps(clock, baud as int);
    lemma_init_configures_line(s, clock, baud as int);
    lemma_init_transfer_configures_line(s, clock, baud, max_polls);
    assert(reads_nothing(steps[0]));
    lemma_late_transfer_follows_model(s, busy, steps, max_polls, Some((clock, baud)), 1, LSR_TMTY);
}

proof fn lemma_send_starts_with_wait(bytes: Seq<u8>)
    requires
        bytes.len() > 0,
    ensures
        send_steps(bytes).len() > 0,
        send_steps(bytes)[0] == Step::WaitAll(Register::Lsr, LSR_THRE),
    decreases bytes.len(),
{
    let front = bytes.drop_last();
    if front.len() > 0 {
        lemma_send_starts_with_wait(front);
    } else {
        assert(send_steps(front) =~= Seq::<Step>::empty());
        assert(send_steps(bytes) =~= byte_out_steps(bytes.last()));
    }
}

/// On a loopback UART whose transmitter reports busy for its first `busy`
/// status reads, with the latch closed, nothing waiting to be read and
/// more than `busy` polls allowed per wait, the transfer from
/// `Uart::write_bytes` finishes `busy` actions later than without delay,
/// and the transfer from `Uart::read` of as many bytes then receives
/// exactly the bytes written.
pub proof fn lemma_late_round_trip(s: SimUart, busy: nat, bytes: Seq<u8>, max_polls: nat)
    requires
        !latch_open(s),
        s.rx.len() == 0,
        busy < max_polls,
    ensures
        ({
            let w = write_bytes_steps(bytes);
            let r = receive_steps(bytes.len());
            let (vw, h) = late_drive(
                started(w, max_polls, None),
                LateUart { uart: s, busy },
                plan_actions(w) + busy,
            );
            let (vr, u) = late_drive(started(r, max_polls, None), h, plan_actions(r));
            &&& vw.stage == Stage::Finished
            &&& vr.stage == Stage::Finished
            &&& vr.received == bytes
            &&& u.uart.rx.len() == 0
        }),
{
    let w = write_bytes_steps(bytes);
    let r = receive_steps(bytes.len());
    lemma_loopback_round_trip(s, bytes);
    lemma_transfers_round_trip(s, bytes, max_polls);
    if bytes.len() > 0 {
        lemma_send_starts_with_wait(bytes);
        lemma_late_transfer_follows_model(s, busy, w, max_polls, None, 0, LSR_THRE);
    } else {
        assert(send_steps(bytes) =~= Seq::<Step>::empty());
        lemma_late_transfer_follows_model(s, busy, w, max_polls, None, 0, LSR_TMTY);
    }
    let t = drive(started(w, max_polls, None), s, plan_actions(w)).1;
    lemma_late_drive_no_delay(started(r, max_polls, None), t, plan_actions(r));
}

} // verus!
