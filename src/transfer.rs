//! Execution of a plan, one register access at a time.
//!
//! A `Transfer` holds a plan and the progress made on it. It asks for one
//! action at a time; whoever owns the hardware performs it and hands the
//! result back with `resume` (the value read, for a read). Every wait step
//! reads its register at most `max_polls` times before the transfer gives
//! up, so no operation spins forever on absent or stuck hardware.

use vstd::prelude::*;

use crate::regs::Register;
use crate::step::{ClockId, Step};
use crate::uart::init_steps;

verus! {

/// What the owner of the hardware is asked to do next.
#[derive(Clone, Copy, Debug, PartialEq, Eq, Structural)]
pub enum Action {
    /// Enable the given clock.
    EnableClock(ClockId),
    /// Read the register and pass its value to `resume`.
    Read(Register),
    /// Write the value to the register.
    Write(Register, u32),
    /// Busy-wait for the given number of microseconds.
    Sleep(u32),
    /// Every step is done.
    Finished,
    /// A wait step saw its condition unmet `max_polls` times.
    TimedOut,
}

/// Where a transfer stands on its current step.
#[derive(Clone, Copy, Debug, PartialEq, Eq, Structural)]
pub enum Stage {
    /// The first access of the current step is outstanding.
    Issued,
    /// The write-back of a read-modify-write step is outstanding, with the
    /// value to write.
    WritingBack(u32),
    /// Every step is done.
    Finished,
    /// A wait step ran out of polls.
    TimedOut,
}

/// Mathematical state of a transfer.
pub struct TransferView {
    pub steps: Seq<Step>,
    pub current: nat,
    pub stage: Stage,
    pub polls: nat,
    pub max_polls: nat,
    pub received: Seq<u8>,
    /// The clock and baud rate of the UART initialization that this
    /// transfer performs, if it is one.
    pub init_of: Option<(ClockId, u32)>,
}

/// A plan being executed.
pub struct Transfer {
    steps: Vec<Step>,
    current: usize,
    stage: Stage,
    polls: u32,
    max_polls: u32,
    received: Vec<u8>,
    init_of: Option<(ClockId, u32)>,
}

/// The action that starts a step.
pub open spec fn first_action(step: Step) -> Action {
    match step {
        Step::EnableClock(c) => Action::EnableClock(c),
        Step::Write(r, v) => Action::Write(r, v),
        Step::Read(r) => Action::Read(r),
        Step::ClearBits(r, _) => Action::Read(r),
        Step::WaitAll(r, _) => Action::Read(r),
        Step::Sleep(us) => Action::Sleep(us),
        Step::Receive(r) => Action::Read(r),
    }
}

/// The register that a read-modify-write step writes back to.
pub open spec fn modified_register(step: Step) -> Register {
    match step {
        Step::ClearBits(r, _) => r,
        _ => Register::Thr,
    }
}

/// A state is consistent: the step in progress exists, and a write-back is
/// only pending for a read-modify-write step.
pub open spec fn view_wf(v: TransferView) -> bool {
    &&& v.current <= v.steps.len()
    &&& v.polls < v.max_polls || v.polls == 0
    &&& v.init_of matches Some((c, b)) ==> b > 0 && v.steps == init_steps(c, b as int)
    &&& match v.stage {
        Stage::Issued => v.current < v.steps.len(),
        Stage::WritingBack(_) => v.current < v.steps.len() && v.steps[v.current as int] is ClearBits,
        Stage::Finished => v.current == v.steps.len(),
        Stage::TimedOut => v.current < v.steps.len(),
    }
}

/// The action that a state waits on.
pub open spec fn pending_action(v: TransferView) -> Action {
    match v.stage {
        Stage::Issued => first_action(v.steps[v.current as int]),
        Stage::WritingBack(w) => Action::Write(modified_register(v.steps[v.current as int]), w),
        Stage::Finished => Action::Finished,
        Stage::TimedOut => Action::TimedOut,
    }
}

/// The state in which the first `current + 1` steps are done.
pub open spec fn advanced(v: TransferView) -> TransferView {
    let next = v.current + 1;
    TransferView {
        current: next,
        stage: if next == v.steps.len() {
            Stage::Finished
        } else {
            Stage::Issued
        },
        polls: 0,
        ..v
    }
}

/// The state after the pending action completed with `reply` (the value
/// read, for a read; anything otherwise).
pub open spec fn resumed(v: TransferView, reply: u32) -> TransferView {
    match v.stage {
        Stage::Issued => match v.steps[v.current as int] {
            Step::ClearBits(_, m) => TransferView { stage: Stage::WritingBack(reply & !m), ..v },
            Step::WaitAll(_, m) => if reply & m == m {
                advanced(v)
            } else if v.polls + 1 >= v.max_polls {
                TransferView { stage: Stage::TimedOut, polls: 0, ..v }
            } else {
                TransferView { polls: v.polls + 1, ..v }
            },
            Step::Receive(_) => advanced(TransferView { received: v.received.push(reply as u8), ..v }),
            _ => advanced(v),
        },
        Stage::WritingBack(_) => advanced(v),
        _ => v,
    }
}

/// The state in which no step of `steps` has been started yet; `init_of`
/// records the initialization that the steps perform, if any.
pub open spec fn started(
    steps: Seq<Step>,
    max_polls: nat,
    init_of: Option<(ClockId, u32)>,
) -> TransferView {
    TransferView {
        steps,
        current: 0,
        stage: if steps.len() == 0 {
            Stage::Finished
        } else {
            Stage::Issued
        },
        polls: 0,
        max_polls,
        received: Seq::empty(),
        init_of,
    }
}

/// The transfer has ended, either way.
pub open spec fn is_done(v: TransferView) -> bool {
    v.stage is Finished || v.stage is TimedOut
}

/// The state after each of `replies` was handed back in turn.
pub open spec fn resume_all(v: TransferView, replies: Seq<u32>) -> TransferView
    decreases replies.len(),
{
    if replies.len() == 0 {
        v
    } else {
        resume_all(resumed(v, replies[0]), replies.drop_first())
    }
}

/// Upper bound on the actions a transfer still takes: each step left
/// takes at most `max_polls + 2` of them.
pub open spec fn actions_left(v: TransferView) -> int {
    if is_done(v) {
        0
    } else {
        (v.steps.len() - v.current) * (v.max_polls + 2) - v.polls - (if v.stage is WritingBack {
            1int
        } else {
            0
        })
    }
}

/// Resuming keeps a state consistent, and either ends the transfer or
/// brings it closer to its end.
proof fn lemma_resume_progress(v: TransferView, reply: u32)
    requires
        view_wf(v),
    ensures
        view_wf(resumed(v, reply)),
        is_done(v) ==> resumed(v, reply) == v,
        !is_done(v) ==> actions_left(v) > 0,
        !is_done(v) && !is_done(resumed(v, reply)) ==> actions_left(resumed(v, reply))
            < actions_left(v),
{
    if !is_done(v) {
        let k = v.steps.len() - v.current;
        let b = v.max_polls + 2;
        assert(k * b >= b && (k - 1) * b == k * b - b) by (nonlinear_arith)
            requires
                k >= 1,
                b >= 2,
        ;
    }
}

/// Whatever the hardware answers, a transfer started on `steps` has ended
/// (finished or timed out) once `steps.len() * (max_polls + 2)` actions
/// were answered: no operation waits forever.
pub proof fn lemma_every_transfer_ends(
    steps: Seq<Step>,
    max_polls: nat,
    init_of: Option<(ClockId, u32)>,
    replies: Seq<u32>,
)
    requires
        init_of matches Some((c, b)) ==> b > 0 && steps == init_steps(c, b as int),
        replies.len() >= steps.len() * (max_polls + 2),
    ensures
        is_done(resume_all(started(steps, max_polls, init_of), replies)),
{
    let v = started(steps, max_polls, init_of);
    lemma_resume_all_ends(v, replies);
}

proof fn lemma_resume_all_ends(v: TransferView, replies: Seq<u32>)
    requires
        view_wf(v),
        replies.len() >= actions_left(v),
    ensures
        is_done(resume_all(v, replies)),
    decreases replies.len(),
{
    if replies.len() > 0 {
        lemma_resume_progress(v, replies[0]);
        let w = resumed(v, replies[0]);
        if is_done(w) {
            lemma_resume_all_stays_done(w, replies.drop_first());
        } else {
            lemma_resume_all_ends(w, replies.drop_first());
        }
    } else {
        lemma_resume_progress(v, 0);
    }
}

proof fn lemma_resume_all_stays_done(v: TransferView, replies: Seq<u32>)
    requires
        is_done(v),
    ensures
        resume_all(v, replies) == v,
    decreases replies.len(),
{
    if replies.len() > 0 {
        lemma_resume_all_stays_done(resumed(v, replies[0]), replies.drop_first());
    }
}

impl View for Transfer {
    type V = TransferView;

    closed spec fn view(&self) -> TransferView {
        TransferView {
            steps: self.steps@,
            current: self.current as nat,
            stage: self.stage,
            polls: self.polls as nat,
            max_polls: self.max_polls as nat,
            received: self.received@,
            init_of: self.init_of,
        }
    }
}

impl Transfer {
    /// The transfer is in a consistent state.
    pub open spec fn wf(&self) -> bool {
        view_wf(self@)
    }

    /// Starts executing `steps`; each wait step may read its register up
    /// to `max_polls` times (at least once).
    pub fn new(steps: Vec<Step>, max_polls: u32) -> (t: Transfer)
        ensures
            t.wf(),
            t@ == started(steps@, max_polls as nat, None),
    {
        let stage = if steps.len() == 0 {
            Stage::Finished
        } else {
            Stage::Issued
        };
        Transfer {
            steps,
            current: 0,
            stage,
            polls: 0,
            max_polls,
            received: Vec::new(),
            init_of: None,
        }
    }

    /// Starts executing `steps`, the initialization of the UART fed by
    /// `clock` for `baud`.
    pub(crate) fn for_init(steps: Vec<Step>, clock: ClockId, baud: u32, max_polls: u32) -> (t:
        Transfer)
        requires
            baud > 0,
            steps@ == init_steps(clock, baud as int),
        ensures
            t.wf(),
            t@ == started(steps@, max_polls as nat, Some((clock, baud))),
    {
        let mut t = Transfer::new(steps, max_polls);
        t.init_of = Some((clock, baud));
        t
    }

    /// The clock and baud rate of the initialization that this transfer
    /// performs, if it is one.
    pub fn init_of(&self) -> (r: Option<(ClockId, u32)>)
        ensures
            r == self@.init_of,
    {
        self.init_of
    }

    /// The steps of the plan being executed.
    pub fn steps(&self) -> (r: &Vec<Step>)
        ensures
            r@ == self@.steps,
    {
        &self.steps
    }

    /// The action that the transfer waits on.
    pub fn action(&self) -> (a: Action)
        requires
            self.wf(),
        ensures
            a == pending_action(self@),
    {
        match self.stage {
            Stage::Issued => match self.steps[self.current] {
                Step::EnableClock(c) => Action::EnableClock(c),
                Step::Write(r, v) => Action::Write(r, v),
                Step::Read(r) => Action::Read(r),
                Step::ClearBits(r, _) => Action::Read(r),
                Step::WaitAll(r, _) => Action::Read(r),
                Step::Sleep(us) => Action::Sleep(us),
                Step::Receive(r) => Action::Read(r),
            },
            Stage::WritingBack(w) => match self.steps[self.current] {
                Step::ClearBits(r, _) => Action::Write(r, w),
                _ => Action::Write(Register::Thr, w),
            },
            Stage::Finished => Action::Finished,
            Stage::TimedOut => Action::TimedOut,
        }
    }

    /// Completes the current step and moves to the next one.
    fn advance(&mut self)
        requires
            old(self).wf(),
            old(self)@.stage is Issued || old(self)@.stage is WritingBack,
        ensures
            final(self).wf(),
            final(self)@ == advanced(old(self)@),
    {
        let n = self.steps.len();
        self.current = self.current + 1;
        self.polls = 0;
        if self.current == n {
            self.stage = Stage::Finished;
        } else {
            self.stage = Stage::Issued;
        }
    }

    /// Hands back the result of the pending action (the value read, for a
    /// read; anything otherwise) and returns the next action.
    pub fn resume(&mut self, reply: u32) -> (a: Action)
        requires
            old(self).wf(),
        ensures
            final(self).wf(),
            final(self)@ == resumed(old(self)@, reply),
            a == pending_action(final(self)@),
    {
        match self.stage {
            Stage::Issued => match self.steps[self.current] {
                Step::ClearBits(_, m) => {
                    self.stage = Stage::WritingBack(reply & !m);
                },
                Step::WaitAll(_, m) => {
                    if reply & m == m {
                        self.advance();
                    } else if self.polls >= self.max_polls || self.max_polls - self.polls <= 1 {
                        self.stage = Stage::TimedOut;
                        self.polls = 0;
                    } else {
                        self.polls = self.polls + 1;
                    }
                },
                Step::Receive(_) => {
                    self.received.push(reply as u8);
                    self.advance();
                },
                _ => {
                    self.advance();
                },
            },
            Stage::WritingBack(_) => {
                self.advance();
            },
            _ => {},
        }
        self.action()
    }

    /// The bytes received so far, in order.
    pub fn received(&self) -> (r: &Vec<u8>)
        ensures
            r@ == self@.received,
    {
        &self.received
    }

    /// The transfer has completed every step.
    pub fn is_finished(&self) -> (b: bool)
        ensures
            b == (self@.stage is Finished),
    {
        match self.stage {
            Stage::Finished => true,
            _ => false,
        }
    }
}

} // verus!
