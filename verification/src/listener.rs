//! The listener: accepts inbound connections and runs the responder
//! handshake on each, retrying on a failed handshake until one fully
//! succeeds, and stopping only on success or on a fatal accept error.

use vstd::prelude::*;

verus! {

/// Where the listener stands: waiting for a connection, running the
/// responder handshake, stopped after a success, or stopped by a fatal
/// accept error.
#[derive(Clone, Copy, PartialEq, Eq, Structural, Debug)]
pub enum ListenerState {
    Accepting,
    Handshaking,
    Succeeded,
    Failed,
}

/// What the listener asks its driver to do next.
#[derive(Clone, Copy, PartialEq, Eq, Structural, Debug)]
pub enum ListenerAction {
    /// A connection came in: run the responder handshake on it.
    RunResponder,
    /// The handshake fully succeeded: report it and accept no more.
    ReportSuccessAndStop,
    /// The handshake failed: report it, drop the connection, accept again.
    ReportFailureAndRetry,
    /// Accepting itself failed: propagate the error and stop.
    PropagateErrorAndStop,
}

/// How the listener state moves on the outcome of one accept.
pub open spec fn spec_on_accept(s: ListenerState, accepted: bool) -> ListenerState {
    match s {
        ListenerState::Accepting => if accepted {
            ListenerState::Handshaking
        } else {
            ListenerState::Failed
        },
        _ => s,
    }
}

/// How the listener state moves on the outcome of one responder handshake.
pub open spec fn spec_on_handshake(s: ListenerState, ok: bool) -> ListenerState {
    match s {
        ListenerState::Handshaking => if ok {
            ListenerState::Succeeded
        } else {
            ListenerState::Accepting
        },
        _ => s,
    }
}

/// The listener's state machine; its driver performs the prescribed actions
/// and feeds the outcomes back.
#[derive(Clone, Copy, PartialEq, Eq, Structural, Debug)]
pub struct Listener {
    pub state: ListenerState,
}

impl Listener {
    /// A fresh listener, about to accept its first connection.
    pub fn new() -> (l: Listener)
        ensures
            l.state is Accepting,
    {
        Listener { state: ListenerState::Accepting }
    }

    /// Records the outcome of one accept: an inbound connection starts a
    /// responder handshake; a failed accept is fatal and stops the listener.
    pub fn on_accept_result(&mut self, accepted: bool) -> (a: ListenerAction)
        requires
            old(self).state is Accepting,
        ensures
            final(self).state == spec_on_accept(old(self).state, accepted),
            accepted ==> final(self).state is Handshaking && a is RunResponder,
            !accepted ==> final(self).state is Failed && a is PropagateErrorAndStop,
    {
        if accepted {
            self.state = ListenerState::Handshaking;
            ListenerAction::RunResponder
        } else {
            self.state = ListenerState::Failed;
            ListenerAction::PropagateErrorAndStop
        }
    }

    /// Records the outcome of one responder handshake: success stops the
    /// listener for good, failure sends it back to accepting the next
    /// connection.
    pub fn on_handshake_result(&mut self, ok: bool) -> (a: ListenerAction)
        requires
            old(self).state is Handshaking,
        ensures
            final(self).state == spec_on_handshake(old(self).state, ok),
            ok ==> final(self).state is Succeeded && a is ReportSuccessAndStop,
            !ok ==> final(self).state is Accepting && a is ReportFailureAndRetry,
    {
        if ok {
            self.state = ListenerState::Succeeded;
            ListenerAction::ReportSuccessAndStop
        } else {
            self.state = ListenerState::Accepting;
            ListenerAction::ReportFailureAndRetry
        }
    }

    /// Whether the listener is still accepting connections.
    pub fn is_accepting(&self) -> (b: bool)
        ensures
            b == (self.state is Accepting),
    {
        self.state == ListenerState::Accepting
    }
}

/// The notice printed when a responder handshake fully succeeds.
pub fn success_notice() -> (s: &'static str)
    ensures
        s@ == "handshake success."@,
{
    "handshake success."
}

/// The notice printed when a responder handshake fails; the driver appends
/// the error it saw.
pub fn failure_notice() -> (s: &'static str)
    ensures
        s@ == "handshake failed, try again."@,
{
    "handshake failed, try again."
}

/// The listener state after `n` rounds in which a connection was accepted
/// but its handshake failed.
pub open spec fn after_failed_handshakes(n: int) -> ListenerState
    decreases n,
{
    if n <= 0 {
        ListenerState::Accepting
    } else {
        spec_on_handshake(spec_on_accept(after_failed_handshakes(n - 1), true), false)
    }
}

/// However many inbound handshakes fail, the listener is accepting again
/// afterwards: failed handshakes never stop it, only a success or a fatal
/// accept error does.
pub proof fn lemma_listener_keeps_accepting(n: int)
    requires
        n >= 0,
    ensures
        after_failed_handshakes(n) is Accepting,
    decreases n,
{
    if n > 0 {
        lemma_listener_keeps_accepting(n - 1);
    }
}

} // verus!
