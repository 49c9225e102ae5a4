use vstd::prelude::*;

verus! {

/// The life of the server process.
#[derive(PartialEq, Eq, Structural, Clone, Copy, Debug)]
pub enum Phase {
    Running,
    ShuttingDown,
    Terminated,
}

/// What the shutdown coordinator hears of.
#[derive(PartialEq, Eq, Structural, Clone, Copy, Debug)]
pub enum Event {
    /// An interrupt signal (Ctrl+C, SIGINT).
    Interrupt,
    /// A terminate signal (SIGTERM).
    Terminate,
    /// The input stream ended.
    InputClosed,
    /// The best-effort cleanup (flushing the log) is done.
    CleanupDone,
}

/// What the process is to do next.
#[derive(PartialEq, Eq, Structural, Clone, Copy, Debug)]
pub enum Action {
    /// Nothing: keep serving, or keep waiting for the cleanup.
    Continue,
    /// Flush and close the log, without waiting for the line in flight.
    Cleanup,
    /// Exit the process with this status.
    Exit(i32),
}

/// The status with which the server always exits.
pub const EXIT_SUCCESS: i32 = 0;

/// The transition of the shutdown coordinator.
pub open spec fn transition(p: Phase, e: Event) -> (Phase, Action) {
    match (p, e) {
        (Phase::Running, Event::CleanupDone) => (Phase::Running, Action::Continue),
        (Phase::Running, _) => (Phase::ShuttingDown, Action::Cleanup),
        (Phase::ShuttingDown, Event::CleanupDone) => (Phase::Terminated, Action::Exit(0)),
        (q, _) => (q, Action::Continue),
    }
}

impl Phase {
    /// The phase and the action that follow an event.
    pub fn on(self, e: Event) -> (r: (Phase, Action))
        ensures
            r == transition(self, e),
    {
        match (self, e) {
            (Phase::Running, Event::CleanupDone) => (Phase::Running, Action::Continue),
            (Phase::Running, _) => (Phase::ShuttingDown, Action::Cleanup),
            (Phase::ShuttingDown, Event::CleanupDone) => (Phase::Terminated, Action::Exit(EXIT_SUCCESS)),
            (q, _) => (q, Action::Continue),
        }
    }
}

/// A signal or the end of input, whichever comes first while running, starts
/// the cleanup at once; once the cleanup is done the process exits with
/// status 0, and whatever comes after that changes nothing.
pub proof fn lemma_stop_then_exit(e: Event, later: Event)
    requires
        e != Event::CleanupDone,
    ensures
        transition(Phase::Running, e) == (Phase::ShuttingDown, Action::Cleanup),
        transition(Phase::ShuttingDown, Event::CleanupDone) == (Phase::Terminated, Action::Exit(0)),
        transition(Phase::Terminated, later) == (Phase::Terminated, Action::Continue),
{
}

} // verus!
