//! The shutdown sequence of the launcher.
//!
//! The launcher runs until it is asked to stop. It then stops the network
//! instance, asks the server process to exit with an interrupt, waits for the
//! exit for a bounded time, and kills the process if the time runs out.
//!
//! The sequence is a state machine. Each state has one activity that is due in
//! it ([`ShutdownState::due`]); the launcher carries the activity out and reports
//! how it ended as an [`Event`], which moves the machine on
//! ([`ShutdownState::step`]). An event that does not belong to the state is
//! ignored.

use vstd::prelude::*;

verus! {

/// The time in seconds that the server process is given to exit after the interrupt.
pub const GRACE_SECONDS: u64 = 5;

/// Which request to stop arrived first.
#[derive(Clone, Copy, Debug, PartialEq, Eq, Structural)]
pub enum ShutdownSignal {
    /// An interrupt, as sent from a terminal.
    Interrupt,
    /// A request to terminate.
    Terminate,
}

/// How the wait for the exit of the server process ended.
#[derive(Clone, Copy, Debug, PartialEq, Eq, Structural)]
pub enum RaceWinner {
    /// The process exited within the grace period.
    ChildExit,
    /// The grace period ran out first.
    Timeout,
}

/// The states of the shutdown sequence, in the order in which they are passed.
#[derive(Clone, Copy, Debug, PartialEq, Eq, Structural)]
pub enum ShutdownState {
    /// The network is up; nobody has asked the launcher to stop.
    Running,
    /// A request to stop has arrived; the instance is to be stopped.
    ShutdownRequested { trigger: ShutdownSignal },
    /// The call that stops the instance has returned, cleanly or not. `found` is
    /// set once the server process has been seen in the process table.
    InstanceStopping { clean: bool, found: bool },
    /// The server process has been sent the interrupt, or was gone already.
    ChildSignaled { clean: bool, interrupted: bool },
    /// The wait for the exit is over.
    ChildWaitRace { clean: bool, winner: RaceWinner },
    /// Nothing is left to do.
    Terminated { clean: bool, killed: bool },
}

/// What the launcher reports to the machine.
#[derive(Clone, Copy, Debug, PartialEq, Eq, Structural)]
pub enum Event {
    /// A request to stop arrived.
    Signal(ShutdownSignal),
    /// The call that stops the instance returned; `clean` tells whether it succeeded.
    InstanceStopped { clean: bool },
    /// The process table was read; `present` tells whether the server process is in it.
    ChildInspected { present: bool },
    /// The interrupt was sent to the server process.
    ChildInterrupted,
    /// The server process exited.
    ChildExited,
    /// The grace period ran out.
    GraceElapsed,
    /// What was due after the wait has been done; a kill may have failed.
    ChildReaped,
}

/// What the launcher is to do.
#[derive(Clone, Copy, Debug, PartialEq, Eq, Structural)]
pub enum Action {
    /// Wait for a request to stop, then report `Signal`.
    AwaitSignal,
    /// Stop the network instance and wait for the call to return, then report
    /// `InstanceStopped`.
    StopInstance,
    /// Look the server process up in the process table, then report `ChildInspected`.
    InspectChild,
    /// Send the interrupt to the server process, then report `ChildInterrupted`.
    InterruptChild,
    /// Wait until the server process exits or `grace_seconds` have passed, then
    /// report `ChildExited` or `GraceElapsed`, whichever came first.
    AwaitExit { grace_seconds: u64 },
    /// Kill the server process if `kill` is set, without regard to whether that
    /// succeeds, then report `ChildReaped`.
    Reap { kill: bool },
    /// Leave.
    Exit,
}

/// The place of a state in the sequence, from 0 for `Running` to 5 for `Terminated`.
pub open spec fn rank(s: ShutdownState) -> nat {
    match s {
        ShutdownState::Running => 0,
        ShutdownState::ShutdownRequested { .. } => 1,
        ShutdownState::InstanceStopping { .. } => 2,
        ShutdownState::ChildSignaled { .. } => 3,
        ShutdownState::ChildWaitRace { .. } => 4,
        ShutdownState::Terminated { .. } => 5,
    }
}

/// The activity that is due in a state.
pub open spec fn due_of(s: ShutdownState) -> Action {
    match s {
        ShutdownState::Running => Action::AwaitSignal,
        ShutdownState::ShutdownRequested { .. } => Action::StopInstance,
        ShutdownState::InstanceStopping { found: true, .. } => Action::InterruptChild,
        ShutdownState::InstanceStopping { found: false, .. } => Action::InspectChild,
        ShutdownState::ChildSignaled { .. } => Action::AwaitExit { grace_seconds: GRACE_SECONDS },
        ShutdownState::ChildWaitRace { winner, .. } => Action::Reap {
            kill: winner == RaceWinner::Timeout,
        },
        ShutdownState::Terminated { .. } => Action::Exit,
    }
}

/// The state after `event` was reported in state `s`.
///
/// A failed stop of the instance does not end the sequence: the server process
/// is dealt with all the same. A process that is gone is not interrupted.
pub open spec fn step_of(s: ShutdownState, event: Event) -> ShutdownState {
    match (s, event) {
        (ShutdownState::Running, Event::Signal(trigger)) => ShutdownState::ShutdownRequested {
            trigger,
        },
        (
            ShutdownState::ShutdownRequested { .. },
            Event::InstanceStopped { clean },
        ) => ShutdownState::InstanceStopping { clean, found: false },
        (
            ShutdownState::InstanceStopping { clean, found: false },
            Event::ChildInspected { present },
        ) => if present {
            ShutdownState::InstanceStopping { clean, found: true }
        } else {
            ShutdownState::ChildSignaled { clean, interrupted: false }
        },
        (
            ShutdownState::InstanceStopping { clean, found: true },
            Event::ChildInterrupted,
        ) => ShutdownState::ChildSignaled { clean, interrupted: true },
        (ShutdownState::ChildSignaled { clean, .. }, Event::ChildExited) => {
            ShutdownState::ChildWaitRace { clean, winner: RaceWinner::ChildExit }
        },
        (ShutdownState::ChildSignaled { clean, .. }, Event::GraceElapsed) => {
            ShutdownState::ChildWaitRace { clean, winner: RaceWinner::Timeout }
        },
        (ShutdownState::ChildWaitRace { clean, winner }, Event::ChildReaped) => {
            ShutdownState::Terminated { clean, killed: winner == RaceWinner::Timeout }
        },
        _ => s,
    }
}

/// The state after the events of `events` were reported one after the other,
/// starting in state `s`.
pub open spec fn run_of(s: ShutdownState, events: Seq<Event>) -> ShutdownState
    decreases events.len(),
{
    if events.len() == 0 {
        s
    } else {
        step_of(run_of(s, events.drop_last()), events.last())
    }
}

impl ShutdownState {
    /// The state in which the launcher starts to supervise.
    pub fn new() -> (s: ShutdownState)
        ensures
            s == ShutdownState::Running,
    {
        ShutdownState::Running
    }

    /// What the launcher is to do in this state.
    pub fn due(&self) -> (a: Action)
        ensures
            a == due_of(*self),
    {
        match self {
            ShutdownState::Running => Action::AwaitSignal,
            ShutdownState::ShutdownRequested { .. } => Action::StopInstance,
            ShutdownState::InstanceStopping { found: true, .. } => Action::InterruptChild,
            ShutdownState::InstanceStopping { found: false, .. } => Action::InspectChild,
            ShutdownState::ChildSignaled { .. } => Action::AwaitExit {
                grace_seconds: GRACE_SECONDS,
            },
            ShutdownState::ChildWaitRace { winner, .. } => Action::Reap {
                kill: matches!(winner, RaceWinner::Timeout),
            },
            ShutdownState::Terminated { .. } => Action::Exit,
        }
    }

    /// Moves on with what the launcher reports.
    pub fn step(self, event: Event) -> (next: ShutdownState)
        ensures
            next == step_of(self, event),
    {
        match (self, event) {
            (ShutdownState::Running, Event::Signal(trigger)) => ShutdownState::ShutdownRequested {
                trigger,
            },
            (
                ShutdownState::ShutdownRequested { .. },
                Event::InstanceStopped { clean },
            ) => ShutdownState::InstanceStopping { clean, found: false },
            (
                ShutdownState::InstanceStopping { clean, found: false },
                Event::ChildInspected { present },
            ) => if present {
                ShutdownState::InstanceStopping { clean, found: true }
            } else {
                ShutdownState::ChildSignaled { clean, interrupted: false }
            },
            (
                ShutdownState::InstanceStopping { clean, found: true },
                Event::ChildInterrupted,
            ) => ShutdownState::ChildSignaled { clean, interrupted: true },
            (ShutdownState::ChildSignaled { clean, .. }, Event::ChildExited) => {
                ShutdownState::ChildWaitRace { clean, winner: RaceWinner::ChildExit }
            },
            (ShutdownState::ChildSignaled { clean, .. }, Event::GraceElapsed) => {
                ShutdownState::ChildWaitRace { clean, winner: RaceWinner::Timeout }
            },
            (ShutdownState::ChildWaitRace { clean, winner }, Event::ChildReaped) => {
                ShutdownState::Terminated { clean, killed: matches!(winner, RaceWinner::Timeout) }
            },
            _ => self,
        }
    }

    /// Whether the sequence has come to its end.
    pub fn is_terminated(&self) -> (r: bool)
        ensures
            r == (rank(*self) == 5),
    {
        matches!(self, ShutdownState::Terminated { .. })
    }
}

/// Only a request to stop ends the running state.
pub proof fn lemma_only_a_signal_ends_running(event: Event)
    ensures
        step_of(ShutdownState::Running, event) != ShutdownState::Running <==> event is Signal,
{
}

/// Once the shutdown is under way, a further request to stop changes nothing.
pub proof fn lemma_later_signals_are_ignored(s: ShutdownState, signal: ShutdownSignal)
    requires
        s != ShutdownState::Running,
    ensures
        step_of(s, Event::Signal(signal)) == s,
{
}

/// The machine never goes back and never skips a state.
pub proof fn lemma_step_advances_by_at_most_one(s: ShutdownState, event: Event)
    ensures
        rank(s) <= rank(step_of(s, event)) <= rank(s) + 1,
{
}

/// Nothing follows the terminated state.
pub proof fn lemma_terminated_is_final(s: ShutdownState, event: Event)
    requires
        s is Terminated,
    ensures
        step_of(s, event) == s,
{
}

/// Whatever is reported, a run that has come to some state has been in every
/// state before it: the instance is stopped before the server process is
/// signalled, and the process is signalled before it is waited for or killed.
pub proof fn lemma_run_passes_every_state(events: Seq<Event>, r: nat) -> (k: int)
    requires
        r <= rank(run_of(ShutdownState::Running, events)),
    ensures
        0 <= k <= events.len(),
        rank(run_of(ShutdownState::Running, events.take(k))) == r,
    decreases events.len(),
{
    if events.len() == 0 {
        0
    } else {
        let front = events.drop_last();
        lemma_step_advances_by_at_most_one(run_of(ShutdownState::Running, front), events.last());
        if r <= rank(run_of(ShutdownState::Running, front)) {
            let k = lemma_run_passes_every_state(front, r);
            assert(events.take(k) =~= front.take(k));
            k
        } else {
            assert(events.take(events.len() as int) =~= events);
            events.len() as int
        }
    }
}

/// A failed stop of the instance does not strand the server process: the
/// lookup of the process is due next, as after a clean stop.
pub proof fn lemma_failed_stop_goes_on(trigger: ShutdownSignal, clean: bool)
    ensures
        due_of(
            step_of(ShutdownState::ShutdownRequested { trigger }, Event::InstanceStopped { clean }),
        ) == Action::InspectChild,
{
}

/// The interrupt is due exactly if the server process was found.
pub proof fn lemma_interrupt_iff_present(clean: bool, present: bool)
    ensures
        due_of(
            step_of(
                ShutdownState::InstanceStopping { clean, found: false },
                Event::ChildInspected { present },
            ),
        ) == (if present {
            Action::InterruptChild
        } else {
            Action::AwaitExit { grace_seconds: GRACE_SECONDS }
        }),
{
}

/// A kill is due only in the state that the end of the grace period leads to,
/// and that state is entered by no other event.
pub proof fn lemma_kill_only_after_timeout(s: ShutdownState, event: Event)
    ensures
        due_of(s) == (Action::Reap { kill: true }) <==> (s matches ShutdownState::ChildWaitRace {
            winner,
            ..
        } && winner == RaceWinner::Timeout),
        s !is ChildWaitRace && due_of(step_of(s, event)) == (Action::Reap { kill: true })
            ==> event == Event::GraceElapsed,
{
}

/// A server process that does not exit is killed: from the moment the process
/// is waited for, the end of the grace period makes the kill due, and the
/// sequence ends once the kill has been tried, whether or not it succeeded.
pub proof fn lemma_unresponsive_child_is_killed(s: ShutdownState)
    requires
        s is ChildSignaled,
    ensures
        due_of(s) == (Action::AwaitExit { grace_seconds: 5 }),
        due_of(step_of(s, Event::GraceElapsed)) == (Action::Reap { kill: true }),
        step_of(step_of(s, Event::GraceElapsed), Event::ChildReaped) matches ShutdownState::Terminated {
            killed,
            ..
        } && killed,
{
}

/// A server process that exits in time is not killed.
pub proof fn lemma_exited_child_is_not_killed(s: ShutdownState)
    requires
        s is ChildSignaled,
    ensures
        due_of(step_of(s, Event::ChildExited)) == (Action::Reap { kill: false }),
        step_of(step_of(s, Event::ChildExited), Event::ChildReaped) matches ShutdownState::Terminated {
            killed,
            ..
        } && !killed,
{
}

} // verus!
