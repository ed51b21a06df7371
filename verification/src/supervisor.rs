//! The decisions of the lifecycle supervisor.
//!
//! The supervisor starts the server task and the consumer task and stops as
//! soon as either has finished. Waiting is the caller's business: each time
//! the two tasks have been polled it hands what it saw to `observe`, which
//! says whether the race is over and who won it. The loser is left alone.

use vstd::prelude::*;

verus! {

/// One of the two supervised tasks.
#[derive(Debug, Clone, Copy, PartialEq, Eq, Structural)]
pub enum Winner {
    Server,
    Consumer,
}

/// Which task finished first, and with what result.
#[derive(Debug, PartialEq, Eq)]
pub enum Outcome<R1, R2> {
    ServerFinished(R1),
    ConsumerFinished(R2),
}

/// Where the process stands.
#[derive(Debug, Clone, Copy, PartialEq, Eq, Structural)]
pub enum Phase {
    /// Nothing runs yet.
    Starting,
    /// Both tasks run.
    Running,
    /// One task has finished; the process is shutting down.
    Terminating(Winner),
    /// The end. Nothing leads out of it.
    Stopped,
}

/// What a task that finishes at `done_at` shows when polled at `tick`.
pub open spec fn shown_at<R>(done_at: nat, tick: nat, result: R) -> Option<R> {
    if tick >= done_at {
        Some(result)
    } else {
        None
    }
}

/// The result of one poll of both tasks: the server is asked first, so it
/// wins where both are ready.
pub open spec fn first_ready<R1, R2>(server: Option<R1>, consumer: Option<R2>) -> Option<
    Outcome<R1, R2>,
> {
    match server {
        Some(r) => Some(Outcome::ServerFinished(r)),
        None => match consumer {
            Some(r) => Some(Outcome::ConsumerFinished(r)),
            None => None,
        },
    }
}

impl<R1, R2> Outcome<R1, R2> {
    pub open spec fn spec_winner(self) -> Winner {
        match self {
            Outcome::ServerFinished(_) => Winner::Server,
            Outcome::ConsumerFinished(_) => Winner::Consumer,
        }
    }

    /// The task that finished first.
    pub fn winner(&self) -> (w: Winner)
        ensures
            w == self.spec_winner(),
    {
        match self {
            Outcome::ServerFinished(_) => Winner::Server,
            Outcome::ConsumerFinished(_) => Winner::Consumer,
        }
    }
}

/// Whether the task that won the race succeeded.
pub open spec fn spec_succeeded<A, E, B, F>(outcome: Outcome<Result<A, E>, Result<B, F>>) -> bool {
    match outcome {
        Outcome::ServerFinished(r) => r is Ok,
        Outcome::ConsumerFinished(r) => r is Ok,
    }
}

/// The exit status of the process: success exactly where the winning task
/// succeeded.
pub fn succeeded<A, E, B, F>(outcome: &Outcome<Result<A, E>, Result<B, F>>) -> (ok: bool)
    ensures
        ok == spec_succeeded(*outcome),
{
    match outcome {
        Outcome::ServerFinished(r) => r.is_ok(),
        Outcome::ConsumerFinished(r) => r.is_ok(),
    }
}

/// What a task that finishes at `done_at` shows when polled at `tick`.
pub fn poll_at<R>(done_at: u64, tick: u64, result: R) -> (shown: Option<R>)
    ensures
        shown == shown_at(done_at as nat, tick as nat, result),
{
    if tick >= done_at {
        Some(result)
    } else {
        None
    }
}

/// The supervisor of the two tasks.
#[derive(Debug)]
pub struct Supervisor {
    phase: Phase,
}

impl View for Supervisor {
    type V = Phase;

    closed spec fn view(&self) -> Phase {
        self.phase
    }
}

/// The phase after a poll that gave `seen`.
pub open spec fn phase_after<R1, R2>(phase: Phase, seen: Option<Outcome<R1, R2>>) -> Phase {
    match (phase, seen) {
        (Phase::Running, Some(outcome)) => Phase::Terminating(outcome.spec_winner()),
        _ => phase,
    }
}

impl Supervisor {
    /// A supervisor that has started nothing yet.
    pub fn new() -> (s: Supervisor)
        ensures
            s@ == Phase::Starting,
    {
        Supervisor { phase: Phase::Starting }
    }

    /// The phase the process is in.
    pub fn phase(&self) -> (p: Phase)
        ensures
            p == self@,
    {
        self.phase
    }

    /// Both tasks have been started. Only a supervisor that has started
    /// nothing yet begins to run: any other stays as it is.
    pub fn start(&mut self) -> (started: bool)
        ensures
            started == (old(self)@ == Phase::Starting),
            started ==> final(self)@ == Phase::Running,
            !started ==> final(self)@ == old(self)@,
    {
        match self.phase {
            Phase::Starting => {
                self.phase = Phase::Running;
                true
            },
            _ => false,
        }
    }

    /// Takes what one poll of the two tasks showed: for each its result, if
    /// it has finished. While both run, the first finished task ends the
    /// race and its result is handed out; the other is neither waited for
    /// nor cancelled. Outside the running phase nothing is decided.
    pub fn observe<R1, R2>(&mut self, server: Option<R1>, consumer: Option<R2>) -> (seen: Option<
        Outcome<R1, R2>,
    >)
        ensures
            seen == (if old(self)@ == Phase::Running {
                first_ready(server, consumer)
            } else {
                None
            }),
            final(self)@ == phase_after(old(self)@, seen),
    {
        match self.phase {
            Phase::Running => match server {
                Some(r) => {
                    self.phase = Phase::Terminating(Winner::Server);
                    Some(Outcome::ServerFinished(r))
                },
                None => match consumer {
                    Some(r) => {
                        self.phase = Phase::Terminating(Winner::Consumer);
                        Some(Outcome::ConsumerFinished(r))
                    },
                    None => None,
                },
            },
            _ => None,
        }
    }

    /// Ends the shutdown. Only a terminating process stops; a stopped one
    /// stays stopped.
    pub fn stop(&mut self) -> (stopped: bool)
        ensures
            stopped == (old(self)@ is Terminating),
            stopped ==> final(self)@ == Phase::Stopped,
            !stopped ==> final(self)@ == old(self)@,
    {
        match self.phase {
            Phase::Terminating(_) => {
                self.phase = Phase::Stopped;
                true
            },
            _ => false,
        }
    }
}

/// How far a phase has come: the order in which a process goes through them.
pub open spec fn rank(phase: Phase) -> nat {
    match phase {
        Phase::Starting => 0,
        Phase::Running => 1,
        Phase::Terminating(_) => 2,
        Phase::Stopped => 3,
    }
}

/// The race is decided by who finishes first. With a server that finishes
/// at `t1` and a consumer that finishes at `t2`, a poll before both times
/// decides nothing, and the poll at the earlier time names the task that
/// finished then, with its result: the server where `t1 < t2`, the consumer
/// where `t2 < t1`.
pub proof fn lemma_race_first_wins<R1, R2>(t1: nat, r1: R1, t2: nat, r2: R2, tick: nat)
    ensures
        tick < t1 && tick < t2 ==> first_ready(shown_at(t1, tick, r1), shown_at(t2, tick, r2))
            == None::<Outcome<R1, R2>>,
        t1 < t2 && t1 <= tick < t2 ==> first_ready(shown_at(t1, tick, r1), shown_at(t2, tick, r2))
            == Some(Outcome::<R1, R2>::ServerFinished(r1)),
        t2 < t1 && t2 <= tick < t1 ==> first_ready(shown_at(t1, tick, r1), shown_at(t2, tick, r2))
            == Some(Outcome::<R1, R2>::ConsumerFinished(r2)),
        phase_after(Phase::Running, first_ready(shown_at(t1, tick, r1), shown_at(t2, tick, r2)))
            == (if tick < t1 && tick < t2 {
            Phase::Running
        } else if t1 <= tick {
            Phase::Terminating(Winner::Server)
        } else {
            Phase::Terminating(Winner::Consumer)
        }),
{
}

/// A process never goes back: no poll returns it to an earlier phase, and
/// none leads out of `Stopped` or decides a second race.
pub proof fn lemma_phase_never_goes_back<R1, R2>(phase: Phase, seen: Option<Outcome<R1, R2>>)
    ensures
        rank(phase_after(phase, seen)) >= rank(phase),
        phase != Phase::Running ==> phase_after(phase, seen) == phase,
{
}

} // verus!
