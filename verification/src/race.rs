//! The orchestration race: listener, connector and the interrupt watcher run
//! concurrently, and the first of the three to finish determines the outcome
//! and terminates the process; the losing tasks are simply abandoned.

use vstd::prelude::*;

verus! {

/// The orchestration phase: not yet started, racing the three tasks, or
/// terminated by the first finisher.
#[derive(Clone, Copy, PartialEq, Eq, Structural, Debug)]
pub enum Phase {
    Idle,
    Racing,
    Terminated,
}

/// Which of the three racing tasks finished first, and with what.
#[derive(Clone, Copy, PartialEq, Eq, Structural, Debug)]
pub enum RaceWinner {
    /// The listener finished: `true` after a fully successful responder
    /// handshake, `false` after a fatal accept error.
    ListenerDone(bool),
    /// The connector's single handshake attempt returned. This wins the race
    /// whether that attempt succeeded or failed; only the error text is
    /// reported separately.
    ConnectorDone,
    /// The external interrupt fired.
    Interrupted,
}

/// How the phase moves when a winner is declared: a race terminates, and a
/// terminated orchestration stays terminated whatever else finishes later.
pub open spec fn spec_finish(p: Phase, w: RaceWinner) -> Phase {
    match p {
        Phase::Racing => Phase::Terminated,
        _ => p,
    }
}

/// The fixed notice the winner earns: the connector's completion line, the
/// interrupt's exit line, and nothing for the listener, which reports through
/// its own notices (or the propagated accept error).
pub open spec fn spec_notice(w: RaceWinner) -> Option<Seq<char>> {
    match w {
        RaceWinner::ListenerDone(_) => None,
        RaceWinner::ConnectorDone => Some("handshake initiated and completed."@),
        RaceWinner::Interrupted => Some("Ctrl+C exiting"@),
    }
}

/// The orchestrator: tracks the phase and hands the driver the notice owed
/// to whichever task finished first.
#[derive(Clone, Copy, PartialEq, Eq, Structural, Debug)]
pub struct Orchestrator {
    pub phase: Phase,
}

impl Orchestrator {
    /// A fresh orchestration, not yet racing.
    pub fn new() -> (o: Orchestrator)
        ensures
            o.phase is Idle,
    {
        Orchestrator { phase: Phase::Idle }
    }

    /// Enters the racing phase: the driver now starts the listener, the
    /// connector and the interrupt watcher concurrently.
    pub fn start_racing(&mut self)
        requires
            old(self).phase is Idle,
        ensures
            final(self).phase is Racing,
    {
        self.phase = Phase::Racing;
    }

    /// Declares the first finisher and terminates the race. Returns the fixed
    /// notice owed to that winner, if any; the driver prints it and ends the
    /// process, which abandons the losing tasks.
    pub fn finish(&mut self, w: RaceWinner) -> (notice: Option<&'static str>)
        requires
            old(self).phase is Racing,
        ensures
            final(self).phase == spec_finish(old(self).phase, w),
            final(self).phase is Terminated,
            w is ConnectorDone ==> (notice matches Some(s) && s@ == spec_notice(w)->Some_0),
            w is Interrupted ==> (notice matches Some(s) && s@ == spec_notice(w)->Some_0),
            w is ListenerDone ==> notice is None,
    {
        self.phase = Phase::Terminated;
        match w {
            RaceWinner::ListenerDone(_) => None,
            RaceWinner::ConnectorDone => Some("handshake initiated and completed."),
            RaceWinner::Interrupted => Some("Ctrl+C exiting"),
        }
    }

    /// Whether the race is running.
    pub fn is_racing(&self) -> (b: bool)
        ensures
            b == (self.phase is Racing),
    {
        self.phase == Phase::Racing
    }
}

/// The race has a single termination path and it is idempotent: from Racing,
/// any first finisher — the listener, the connector, or the interrupt — moves
/// the orchestration to Terminated in one step, and a terminated
/// orchestration stays terminated whatever finishes afterwards. In
/// particular an interrupt during Racing terminates at once, without any
/// in-flight handshake completing first.
pub proof fn lemma_single_termination(w: RaceWinner, later: RaceWinner)
    ensures
        spec_finish(Phase::Racing, w) is Terminated,
        spec_finish(spec_finish(Phase::Racing, w), later) is Terminated,
{
}

} // verus!
