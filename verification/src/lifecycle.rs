//! The run lifecycle: Running, Draining, Reporting, Terminated.
//!
//! The running flag is true exactly in the Running phase and transitions
//! to false once; the background refresher polls it. Whichever execution
//! context triggers shutdown first — the interrupt handler or the
//! event-dispatch call returning — wins the single claim to report, so the
//! final summary is produced exactly once per run even when the triggers
//! race.

use vstd::prelude::*;

verus! {

/// The phases of a run, in the order they are passed through.
#[derive(Clone, Copy, PartialEq, Eq, Structural, Debug)]
pub enum Phase {
    Running,
    Draining,
    Reporting,
    Terminated,
}

/// The lifecycle operations, as values, for stating laws about whole
/// sequences of calls.
#[derive(Clone, Copy, PartialEq, Eq, Structural, Debug)]
pub enum LifecycleOp {
    BeginShutdown,
    ClaimReport,
    MarkTerminated,
}

/// What one operation does to the phase. Every operation is total: applied
/// in any other phase it changes nothing, so a racing second trigger is
/// absorbed without observable effect.
pub open spec fn op_step(p: Phase, op: LifecycleOp) -> Phase {
    match op {
        LifecycleOp::BeginShutdown => if p is Running {
            Phase::Draining
        } else {
            p
        },
        LifecycleOp::ClaimReport => if p is Draining {
            Phase::Reporting
        } else {
            p
        },
        LifecycleOp::MarkTerminated => if p is Reporting {
            Phase::Terminated
        } else {
            p
        },
    }
}

/// Whether one operation wins the claim to produce the summary.
pub open spec fn op_claims(p: Phase, op: LifecycleOp) -> nat {
    if op is ClaimReport && p is Draining {
        1
    } else {
        0
    }
}

/// The phase after a whole sequence of operations.
pub open spec fn run_ops(p: Phase, ops: Seq<LifecycleOp>) -> Phase
    decreases ops.len(),
{
    if ops.len() == 0 {
        p
    } else {
        op_step(run_ops(p, ops.drop_last()), ops.last())
    }
}

/// How many operations of a sequence win the claim to report.
pub open spec fn claims(p: Phase, ops: Seq<LifecycleOp>) -> nat
    decreases ops.len(),
{
    if ops.len() == 0 {
        0
    } else {
        claims(p, ops.drop_last()) + op_claims(run_ops(p, ops.drop_last()), ops.last())
    }
}

/// How many reports can still be claimed from a phase: one before the
/// Reporting phase is reached, none afterwards.
pub open spec fn reports_left(p: Phase) -> nat {
    match p {
        Phase::Running => 1,
        Phase::Draining => 1,
        Phase::Reporting => 0,
        Phase::Terminated => 0,
    }
}

/// No sequence of operations lets the claims exceed what the starting
/// phase still has left.
pub proof fn lemma_claims_bounded(p: Phase, ops: Seq<LifecycleOp>)
    ensures
        claims(p, ops) + reports_left(run_ops(p, ops)) <= reports_left(p),
    decreases ops.len(),
{
    if ops.len() > 0 {
        lemma_claims_bounded(p, ops.drop_last());
    }
}

/// Law: over any sequence of lifecycle operations from the start of a run,
/// at most one wins the claim to produce the summary, so the summary is
/// printed at most once per run whichever execution contexts race for it.
pub proof fn lemma_report_claimed_at_most_once(ops: Seq<LifecycleOp>)
    ensures
        claims(Phase::Running, ops) <= 1,
{
    lemma_claims_bounded(Phase::Running, ops);
}

/// The lifecycle coordinator. The phase only ever advances, and only
/// through [`op_step`]; the phase field is private so no other code can
/// move it backwards.
pub struct Lifecycle {
    phase: Phase,
}

impl Lifecycle {
    /// The current phase.
    pub closed spec fn phase(self) -> Phase {
        self.phase
    }

    /// A run starts in the Running phase.
    pub fn new() -> (lc: Lifecycle)
        ensures
            lc.phase() is Running,
    {
        Lifecycle { phase: Phase::Running }
    }

    /// The running flag: true exactly while the run is in the Running
    /// phase. The background refresher polls this.
    pub fn is_running(&self) -> (r: bool)
        ensures
            r == (self.phase() is Running),
    {
        matches!(self.phase, Phase::Running)
    }

    /// Clears the running flag: Running becomes Draining. Idempotent —
    /// a second trigger changes nothing and is told so.
    pub fn begin_shutdown(&mut self) -> (first: bool)
        ensures
            final(self).phase() == op_step(old(self).phase(), LifecycleOp::BeginShutdown),
            first == (old(self).phase() is Running),
    {
        let first = matches!(self.phase, Phase::Running);
        if first {
            self.phase = Phase::Draining;
        }
        first
    }

    /// Claims the right to produce the final summary: Draining becomes
    /// Reporting. At most one call over a whole run returns true (see
    /// [`lemma_report_claimed_at_most_once`]).
    pub fn claim_report(&mut self) -> (claimed: bool)
        ensures
            final(self).phase() == op_step(old(self).phase(), LifecycleOp::ClaimReport),
            claimed == (op_claims(old(self).phase(), LifecycleOp::ClaimReport) == 1),
            claimed == (old(self).phase() is Draining),
    {
        let claimed = matches!(self.phase, Phase::Draining);
        if claimed {
            self.phase = Phase::Reporting;
        }
        claimed
    }

    /// Ends the run: Reporting becomes Terminated.
    pub fn mark_terminated(&mut self)
        ensures
            final(self).phase() == op_step(old(self).phase(), LifecycleOp::MarkTerminated),
    {
        if matches!(self.phase, Phase::Reporting) {
            self.phase = Phase::Terminated;
        }
    }
}

} // verus!
