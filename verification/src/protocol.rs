//! The fixed six-turn handshake script and the state machine that runs it.
//!
//! Exactly one side speaks per turn: the initiator on odd turns, the
//! responder on even turns. Each message is a fixed, newline-terminated
//! placeholder line; only its successful delivery matters, not its text. A
//! run advances one turn per recorded outcome and aborts for good on the
//! first failure.

use vstd::prelude::*;

verus! {

/// Which side of the handshake this instance plays.
#[derive(Clone, Copy, PartialEq, Eq, Structural, Debug)]
pub enum Role {
    /// Dials out and speaks first in each turn pair.
    Initiator,
    /// Accepts the connection and speaks second in each turn pair.
    Responder,
}

/// What a side does on one turn: send its scripted line, or receive the
/// peer's line.
#[derive(Clone, Copy, PartialEq, Eq, Structural, Debug)]
pub enum Direction {
    Outgoing,
    Incoming,
}

/// How many turns the script has.
pub const TURN_COUNT: u8 = 6;

/// The side that speaks on the given turn: the initiator on odd turns, the
/// responder on even ones.
pub open spec fn speaker(turn: int) -> Role {
    if turn % 2 == 1 {
        Role::Initiator
    } else {
        Role::Responder
    }
}

/// What the given role does on the given turn.
pub open spec fn spec_direction(role: Role, turn: int) -> Direction {
    if speaker(turn) == role {
        Direction::Outgoing
    } else {
        Direction::Incoming
    }
}

/// The whole script of one role, turn by turn.
pub open spec fn script(role: Role) -> Seq<Direction> {
    Seq::new(TURN_COUNT as nat, |i: int| spec_direction(role, i + 1))
}

/// The fixed placeholder line spoken on the given turn, trailing newline
/// included.
pub open spec fn spec_message(turn: int) -> Seq<char> {
    if turn == 1 {
        "1. Hello! Here are my encryption methods.\n"@
    } else if turn == 2 {
        "2. Hello! Here is my public key\n"@
    } else if turn == 3 {
        "3. Here is encrypted secret-key.\n"@
    } else if turn == 4 {
        "4. Got secret-key.\n"@
    } else if turn == 5 {
        "5. This is encrypted sample message.\n"@
    } else {
        "6. Verified sample msg. All OK.\n"@
    }
}

/// Hands out the scripted line of the given turn.
pub fn message_for_turn(turn: u8) -> (m: &'static str)
    requires
        1 <= turn <= TURN_COUNT,
    ensures
        m@ == spec_message(turn as int),
{
    match turn {
        1 => "1. Hello! Here are my encryption methods.\n",
        2 => "2. Hello! Here is my public key\n",
        3 => "3. Here is encrypted secret-key.\n",
        4 => "4. Got secret-key.\n",
        5 => "5. This is encrypted sample message.\n",
        _ => "6. Verified sample msg. All OK.\n",
    }
}

/// What the given role does on the given turn, as executable code.
pub fn direction_for(role: Role, turn: u8) -> (d: Direction)
    requires
        1 <= turn <= TURN_COUNT,
    ensures
        d == spec_direction(role, turn as int),
{
    let speaks_now = turn % 2 == 1;
    let is_initiator = role == Role::Initiator;
    if speaks_now == is_initiator {
        Direction::Outgoing
    } else {
        Direction::Incoming
    }
}

/// One in-progress or finished run of the handshake script by one role:
/// `turn` is the next turn to perform, one past `TURN_COUNT` once the script
/// is done, and `failed` records whether some turn failed.
#[derive(Clone, Copy, PartialEq, Eq, Structural, Debug)]
pub struct HandshakeRun {
    pub role: Role,
    pub turn: u8,
    pub failed: bool,
}

/// A freshly started run of the given role.
pub open spec fn initial_run(role: Role) -> HandshakeRun {
    HandshakeRun { role, turn: 1, failed: false }
}

/// How a run advances on one recorded turn outcome: a successful turn moves
/// to the next one, a failed turn aborts the run, and a run that is not in
/// progress stays as it is.
pub open spec fn spec_advance(r: HandshakeRun, ok: bool) -> HandshakeRun {
    if r.in_progress() {
        if ok {
            HandshakeRun { turn: (r.turn + 1) as u8, ..r }
        } else {
            HandshakeRun { failed: true, ..r }
        }
    } else {
        r
    }
}

/// The action a run asks for next: the direction of its current turn while in
/// progress, nothing once it is done or aborted.
pub open spec fn spec_action(r: HandshakeRun) -> Option<Direction> {
    if r.in_progress() {
        Some(spec_direction(r.role, r.turn as int))
    } else {
        None
    }
}

impl HandshakeRun {
    /// A run is in progress while no turn has failed and turns remain.
    pub open spec fn in_progress(&self) -> bool {
        !self.failed && 1 <= self.turn <= TURN_COUNT
    }

    /// A run succeeded when every turn of the script went through.
    pub open spec fn succeeded(&self) -> bool {
        !self.failed && self.turn == TURN_COUNT + 1
    }

    /// Starts a fresh run for the given role.
    pub fn new(role: Role) -> (r: HandshakeRun)
        ensures
            r == initial_run(role),
            r.in_progress(),
    {
        HandshakeRun { role, turn: 1, failed: false }
    }

    /// The action this run asks for next: send or receive while a turn is
    /// pending, nothing once the run is done or aborted.
    pub fn next_action(&self) -> (a: Option<Direction>)
        ensures
            a == spec_action(*self),
    {
        if self.failed || self.turn < 1 || self.turn > TURN_COUNT {
            None
        } else {
            Some(direction_for(self.role, self.turn))
        }
    }

    /// Records the outcome of the current turn: success moves the run to the
    /// next turn, failure aborts it for good; a run that is not in progress
    /// is left untouched.
    pub fn record_outcome(&mut self, ok: bool)
        ensures
            *final(self) == spec_advance(*old(self), ok),
            final(self).role == old(self).role,
            old(self).in_progress() && ok ==> !final(self).failed && final(self).turn == old(
                self,
            ).turn + 1,
            old(self).in_progress() && !ok ==> final(self).failed && final(self).turn == old(
                self,
            ).turn,
            !old(self).in_progress() ==> *final(self) == *old(self),
    {
        if !self.failed && 1 <= self.turn && self.turn <= TURN_COUNT {
            if ok {
                self.turn = self.turn + 1;
            } else {
                self.failed = true;
            }
        }
    }

    /// Whether a turn of this run is still pending.
    pub fn is_in_progress(&self) -> (b: bool)
        ensures
            b == self.in_progress(),
    {
        !self.failed && 1 <= self.turn && self.turn <= TURN_COUNT
    }

    /// Whether some turn of this run failed.
    pub fn has_failed(&self) -> (b: bool)
        ensures
            b == self.failed,
    {
        self.failed
    }

    /// Whether every turn of the script went through.
    pub fn is_succeeded(&self) -> (b: bool)
        ensures
            b == self.succeeded(),
    {
        !self.failed && self.turn == TURN_COUNT + 1
    }

    /// The next turn to perform.
    pub fn current_turn(&self) -> (t: u8)
        ensures
            t == self.turn,
    {
        self.turn
    }
}

/// The run of the given role after `n` turns, every one of them successful.
pub open spec fn run_after(role: Role, n: int) -> HandshakeRun
    decreases n,
{
    if n <= 0 {
        initial_run(role)
    } else {
        spec_advance(run_after(role, n - 1), true)
    }
}

/// After `n` successful turns the run stands at turn `n + 1` with nothing
/// failed.
pub proof fn lemma_run_after(role: Role, n: int)
    requires
        0 <= n <= TURN_COUNT,
    ensures
        run_after(role, n) == (HandshakeRun { role, turn: (n + 1) as u8, failed: false }),
    decreases n,
{
    if n > 0 {
        lemma_run_after(role, n - 1);
    }
}

/// The turns of a fully successful run happen in the scripted order: on the
/// responder side receive, send, receive, send, receive, send; on the
/// initiator side the complement; at every turn exactly one of the two sides
/// sends while the other receives; and after the sixth turn both runs count
/// as succeeded.
pub proof fn lemma_successful_run_trace()
    ensures
        forall|role: Role, n: int|
            0 <= n < TURN_COUNT ==> spec_action(run_after(role, n)) == Some(script(role)[n]),
        forall|role: Role| run_after(role, TURN_COUNT as int).succeeded(),
        (script(Role::Responder) =~= seq![
            Direction::Incoming,
            Direction::Outgoing,
            Direction::Incoming,
            Direction::Outgoing,
            Direction::Incoming,
            Direction::Outgoing,
        ]),
        (script(Role::Initiator) =~= seq![
            Direction::Outgoing,
            Direction::Incoming,
            Direction::Outgoing,
            Direction::Incoming,
            Direction::Outgoing,
            Direction::Incoming,
        ]),
        forall|t: int|
            1 <= t <= TURN_COUNT ==> spec_direction(Role::Initiator, t) != spec_direction(
                Role::Responder,
                t,
            ),
{
    assert forall|role: Role, n: int|
        0 <= n < TURN_COUNT implies spec_action(run_after(role, n)) == Some(script(role)[n]) by {
        lemma_run_after(role, n);
    }
    assert forall|role: Role| run_after(role, TURN_COUNT as int).succeeded() by {
        lemma_run_after(role, TURN_COUNT as int);
    }
}

/// A failed turn aborts the run for good: a failed run asks for no further
/// action, never counts as succeeded, and stays failed whatever outcomes are
/// recorded later.
pub proof fn lemma_failure_aborts(r: HandshakeRun, ok: bool)
    requires
        r.failed,
    ensures
        spec_action(r) is None,
        !r.succeeded(),
        spec_advance(r, ok) == r,
{
}

} // verus!
