//! Transfers run against the UART model.
//!
//! Driving a transfer means performing its pending action on the model and
//! handing the model's answer back, over and over. A transfer of a plan
//! that the model runs to completion finishes in the model's final state,
//! with the model's received bytes.

use vstd::prelude::*;

use crate::regs::{FCR_EN_FIFO, LCR_WORD_LENGTH_8};
use crate::sim::{
    latch_open, lemma_init_configures_line, lemma_loopback_round_trip, sim_prefix, sim_read,
    sim_run, sim_step, sim_write, with_rx, SimUart,
};
use crate::step::{ClockId, Step};
use crate::timing::divisor_of;
use crate::transfer::{advanced, pending_action, resumed, started, Action, Stage, TransferView};
use crate::uart::{init_steps, receive_steps, write_bytes_steps};

verus! {

/// Performs `a` on the model: its new state and the reply for `resume`.
pub open spec fn perform(s: SimUart, a: Action) -> (SimUart, u32) {
    match a {
        Action::Read(r) => sim_read(s, r),
        Action::Write(r, v) => (sim_write(s, r, v), 0),
        _ => (s, 0),
    }
}

/// The transfer and the model after `n` actions.
pub open spec fn drive(v: TransferView, s: SimUart, n: nat) -> (TransferView, SimUart)
    decreases n,
{
    if n == 0 {
        (v, s)
    } else {
        let (s1, reply) = perform(s, pending_action(v));
        drive(resumed(v, reply), s1, (n - 1) as nat)
    }
}

/// Actions that a step takes when its wait, if any, is met at once.
pub open spec fn step_actions(step: Step) -> nat {
    match step {
        Step::ClearBits(_, _) => 2,
        _ => 1,
    }
}

/// Actions that the first `k` steps take.
pub open spec fn actions_upto(steps: Seq<Step>, k: nat) -> nat
    decreases k,
{
    if k == 0 {
        0
    } else {
        actions_upto(steps, (k - 1) as nat) + step_actions(steps[k - 1])
    }
}

/// Total actions of a plan whose waits are met at once.
pub open spec fn plan_actions(steps: Seq<Step>) -> nat {
    actions_upto(steps, steps.len())
}

/// The transfer of `steps` with the first `k` steps done and `got`
/// received.
pub open spec fn done_upto(
    steps: Seq<Step>,
    max_polls: nat,
    init_of: Option<(ClockId, u32)>,
    k: nat,
    got: Seq<u8>,
) -> TransferView {
    TransferView {
        steps,
        current: k,
        stage: if k == steps.len() {
            Stage::Finished
        } else {
            Stage::Issued
        },
        polls: 0,
        max_polls,
        received: got,
        init_of,
    }
}

pub(crate) proof fn lemma_drive_add(v: TransferView, s: SimUart, a: nat, b: nat)
    ensures
        drive(v, s, a + b) == drive(drive(v, s, a).0, drive(v, s, a).1, b),
    decreases a,
{
    if a > 0 {
        let (s1, reply) = perform(s, pending_action(v));
        lemma_drive_add(resumed(v, reply), s1, (a - 1) as nat, b);
        assert((a + b - 1) as nat == (a - 1) as nat + b);
    }
}

proof fn lemma_drive_one_step(
    steps: Seq<Step>,
    max_polls: nat,
    init_of: Option<(ClockId, u32)>,
    k: nat,
    s: SimUart,
    got: Seq<u8>,
)
    requires
        k < steps.len(),
        sim_step(s, steps[k as int]) is Some,
    ensures
        ({
            let (t, more) = sim_step(s, steps[k as int])->Some_0;
            drive(done_upto(steps, max_polls, init_of, k, got), s, step_actions(steps[k as int])) == (
                done_upto(steps, max_polls, init_of, k + 1, got + more),
                t,
            )
        }),
{
    let v = done_upto(steps, max_polls, init_of, k, got);
    let e = Seq::<u8>::empty();
    assert(got + e =~= got);
    reveal_with_fuel(drive, 3);
    match steps[k as int] {
        Step::Receive(r) => {
            let (t, val) = sim_read(s, r);
            assert(got.push(val as u8) =~= got + seq![val as u8]);
        },
        Step::ClearBits(r, m) => {
            let (t, val) = sim_read(s, r);
            let v1 = resumed(v, val);
            assert(v1.stage == Stage::WritingBack(val & !m));
            assert(resumed(v1, 0) == advanced(v));
        },
        _ => {},
    }
}

/// A transfer of `steps` driven against the model for `actions_upto(steps,
/// k)` actions has done the first `k` steps, exactly as the model runs
/// them.
proof fn lemma_drive_prefix(
    s: SimUart,
    steps: Seq<Step>,
    max_polls: nat,
    init_of: Option<(ClockId, u32)>,
    k: nat,
)
    requires
        k <= steps.len(),
        sim_prefix(s, steps, k) is Some,
    ensures
        ({
            let (t, got) = sim_prefix(s, steps, k)->Some_0;
            drive(started(steps, max_polls, init_of), s, actions_upto(steps, k)) == (
                done_upto(steps, max_polls, init_of, k, got),
                t,
            )
        }),
    decreases k,
{
    if k == 0 {
        assert(started(steps, max_polls, init_of) == done_upto(steps, max_polls, init_of, 0, Seq::empty()));
    } else {
        let j = (k - 1) as nat;
        lemma_drive_prefix(s, steps, max_polls, init_of, j);
        let (t, got) = sim_prefix(s, steps, j)->Some_0;
        lemma_drive_add(started(steps, max_polls, init_of), s, actions_upto(steps, j), step_actions(steps[j as int]));
        lemma_drive_one_step(steps, max_polls, init_of, j, t, got);
    }
}

/// A transfer of a plan that the model runs to completion finishes after
/// `plan_actions(steps)` actions, leaving the model as the run does and
/// holding the bytes the run received.
pub proof fn lemma_transfer_follows_model(
    s: SimUart,
    steps: Seq<Step>,
    max_polls: nat,
    init_of: Option<(ClockId, u32)>,
)
    requires
        sim_run(s, steps) is Some,
    ensures
        ({
            let (t, got) = sim_run(s, steps)->Some_0;
            let (v, u) = drive(started(steps, max_polls, init_of), s, plan_actions(steps));
            &&& v.stage == Stage::Finished
            &&& v.received == got
            &&& u == t
        }),
{
    lemma_drive_prefix(s, steps, max_polls, init_of, steps.len());
}

/// A transfer from `Uart::init` that runs to its end on the model, from
/// any state, leaves the divisor for `baud` in the latch, the latch closed
/// with 8-bit words, no parity and one stop bit, interrupts and flow
/// control off, the FIFOs enabled and the receive FIFO empty; run again
/// with the same baud rate it leaves the same configuration.
pub proof fn lemma_init_transfer_configures_line(
    s: SimUart,
    clock: ClockId,
    baud: u32,
    max_polls: nat,
)
    requires
        baud > 0,
    ensures
        ({
            let steps = init_steps(clock, baud as int);
            let n = plan_actions(steps);
            let (v1, t1) = drive(started(steps, max_polls, Some((clock, baud))), s, n);
            let (v2, t2) = drive(started(steps, max_polls, Some((clock, baud))), t1, n);
            let d = divisor_of(baud as int) as u32;
            &&& v1.stage == Stage::Finished
            &&& t1.lcr == LCR_WORD_LENGTH_8
            &&& !latch_open(t1)
            &&& t1.ier == 0
            &&& t1.mcr == 0
            &&& t1.fcr & FCR_EN_FIFO != 0
            &&& t1.dll == d & 0xFF
            &&& t1.dlm == (d >> 8) & 0xFF
            &&& t1.rx.len() == 0
            &&& v2.stage == Stage::Finished
            &&& t2.dll == t1.dll
            &&& t2.dlm == t1.dlm
            &&& t2.lcr == t1.lcr
            &&& t2.ier == t1.ier
            &&& t2.mcr == t1.mcr
            &&& t2.fcr == t1.fcr
        }),
{
    let steps = init_steps(clock, baud as int);
    lemma_init_configures_line(s, clock, baud as int);
    lemma_transfer_follows_model(s, steps, max_polls, Some((clock, baud)));
    let t1 = sim_run(s, steps)->Some_0.0;
    lemma_init_configures_line(t1, clock, baud as int);
    lemma_transfer_follows_model(t1, steps, max_polls, Some((clock, baud)));
}

/// On a loopback UART with the latch closed and nothing waiting to be
/// read, the transfer from `Uart::write_bytes` followed by the transfer
/// from `Uart::read` of as many bytes both finish, and the read receives
/// exactly the bytes written.
pub proof fn lemma_transfers_round_trip(s: SimUart, bytes: Seq<u8>, max_polls: nat)
    requires
        !latch_open(s),
        s.rx.len() == 0,
    ensures
        ({
            let w = write_bytes_steps(bytes);
            let r = receive_steps(bytes.len());
            let (vw, t) = drive(started(w, max_polls, None), s, plan_actions(w));
            let (vr, u) = drive(started(r, max_polls, None), t, plan_actions(r));
            &&& vw.stage == Stage::Finished
            &&& vr.stage == Stage::Finished
            &&& vr.received == bytes
            &&& u == with_rx(t, Seq::empty())
        }),
{
    let w = write_bytes_steps(bytes);
    let r = receive_steps(bytes.len());
    lemma_loopback_round_trip(s, bytes);
    lemma_transfer_follows_model(s, w, max_polls, None);
    let t = sim_run(s, w)->Some_0.0;
    lemma_transfer_follows_model(t, r, max_polls, None);
}

} // verus!
