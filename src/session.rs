use vstd::prelude::*;

use crate::relay::{Direction, DirectionEnd, Fault};

verus! {

/// The single result reported for a whole relay session.
#[derive(Clone, Copy, Debug, PartialEq, Eq, Structural)]
pub enum Outcome {
    /// A direction reached the end of its stream or received a close frame.
    Completed,
    /// The message stream ended without a close frame: the session still ends
    /// cleanly, with an advisory notice that the peer may have dropped.
    PeerVanished,
    /// A direction failed; the tag says which one and in what operation.
    Failed(Direction, Fault),
}

impl Outcome {
    pub fn is_success(&self) -> (r: bool)
        ensures
            r == !(*self is Failed),
    {
        !matches!(self, Outcome::Failed(_, _))
    }
}

/// The session's outcome when direction `dir` is the first to stop, for `end`.
pub open spec fn outcome_of(dir: Direction, end: DirectionEnd) -> Outcome {
    match end {
        DirectionEnd::EndOfStream => Outcome::Completed,
        DirectionEnd::CloseFrame => Outcome::Completed,
        DirectionEnd::PeerVanished => Outcome::PeerVanished,
        DirectionEnd::Failed(f) => Outcome::Failed(dir, f),
    }
}

/// What the driver of a session does when a direction stops.
#[derive(Clone, Copy, Debug, PartialEq, Eq, Structural)]
pub enum Teardown {
    /// Cancel the other direction, close both endpoints, report the outcome.
    CloseBoth(Outcome),
    /// The session was already torn down: nothing more to close or report.
    Nothing,
}

/// The state of a session, `None` while both directions run, then the
/// outcome it ended with, and the teardown owed for a direction that stops.
pub open spec fn session_next(s: Option<Outcome>, dir: Direction, end: DirectionEnd) -> (
    Option<Outcome>,
    Teardown,
) {
    match s {
        None => (Some(outcome_of(dir, end)), Teardown::CloseBoth(outcome_of(dir, end))),
        Some(o) => (Some(o), Teardown::Nothing),
    }
}

/// The termination of one relay session: the first direction to stop decides
/// the outcome and triggers the one teardown.
pub struct Session {
    outcome: Option<Outcome>,
}

impl View for Session {
    type V = Option<Outcome>;

    closed spec fn view(&self) -> Option<Outcome> {
        self.outcome
    }
}

impl Session {
    /// A session with both directions running.
    pub fn new() -> (r: Session)
        ensures
            r@.is_none(),
    {
        Session { outcome: None }
    }

    /// Whether the session has been torn down.
    pub fn is_finished(&self) -> (r: bool)
        ensures
            r == self@.is_some(),
    {
        self.outcome.is_some()
    }

    /// The outcome the session ended with, if it has ended.
    pub fn outcome(&self) -> (r: Option<Outcome>)
        ensures
            r == self@,
    {
        self.outcome
    }

    /// Records that direction `dir` stopped for `end`.
    pub fn direction_ended(&mut self, dir: Direction, end: DirectionEnd) -> (r: Teardown)
        ensures
            (final(self)@, r) == session_next(old(self)@, dir, end),
    {
        match self.outcome {
            Some(_) => Teardown::Nothing,
            None => {
                let o = match end {
                    DirectionEnd::EndOfStream => Outcome::Completed,
                    DirectionEnd::CloseFrame => Outcome::Completed,
                    DirectionEnd::PeerVanished => Outcome::PeerVanished,
                    DirectionEnd::Failed(f) => Outcome::Failed(dir, f),
                };
                self.outcome = Some(o);
                Teardown::CloseBoth(o)
            },
        }
    }
}

/// The state after a run of direction stops, from state `s`.
pub open spec fn state_after(s: Option<Outcome>, ends: Seq<(Direction, DirectionEnd)>) -> Option<
    Outcome,
>
    decreases ends.len(),
{
    if ends.len() == 0 {
        s
    } else {
        state_after(session_next(s, ends[0].0, ends[0].1).0, ends.drop_first())
    }
}

/// How many teardowns a run of direction stops triggers, from state `s`.
pub open spec fn teardowns(s: Option<Outcome>, ends: Seq<(Direction, DirectionEnd)>) -> nat
    decreases ends.len(),
{
    if ends.len() == 0 {
        0
    } else {
        let (next, t) = session_next(s, ends[0].0, ends[0].1);
        (if t is CloseBoth {
            1nat
        } else {
            0nat
        }) + teardowns(next, ends.drop_first())
    }
}

proof fn lemma_ended_stays(o: Outcome, ends: Seq<(Direction, DirectionEnd)>)
    ensures
        state_after(Some(o), ends) == Some(o),
        teardowns(Some(o), ends) == 0,
    decreases ends.len(),
{
    if ends.len() > 0 {
        lemma_ended_stays(o, ends.drop_first());
    }
}

/// However the two directions stop, and in whatever order, a running session
/// is torn down exactly once, with the outcome of the first direction to stop;
/// every later stop is absorbed without a second close.
pub proof fn lemma_single_teardown(ends: Seq<(Direction, DirectionEnd)>)
    requires
        ends.len() > 0,
    ensures
        teardowns(None, ends) == 1,
        state_after(None, ends) == Some(outcome_of(ends[0].0, ends[0].1)),
{
    lemma_ended_stays(outcome_of(ends[0].0, ends[0].1), ends.drop_first());
}

} // verus!
