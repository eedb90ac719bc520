//! The supervision policy between the primary client, which the service
//! exists for, and the health listener, which is only advisory.

use vstd::prelude::*;

verus! {

/// The end of one of the two tasks.
#[derive(Clone, Copy, Debug, PartialEq, Eq, Structural)]
pub enum TaskEvent {
    /// The health listener stopped, with an error or without one.
    HealthStopped { failed: bool },
    /// The primary client stopped, with an error or without one.
    PrimaryStopped { failed: bool },
}

/// What the supervisor asks the runtime to do after an event.
#[derive(Clone, Copy, Debug, PartialEq, Eq, Structural)]
pub enum Action {
    /// Nothing to do: keep running.
    Continue,
    /// Log the health listener's failure and keep serving.
    ReportHealthFailure,
    /// Stop the process, cancelling the health listener first when it still
    /// runs; `failed` is whether the process ends in failure.
    Shutdown { abort_health: bool, failed: bool },
}

/// Which of the two tasks still run.
#[derive(Clone, Copy, Debug, PartialEq, Eq, Structural)]
pub struct Supervisor {
    pub health_running: bool,
    pub primary_running: bool,
}

/// The state and action that follow an event.
pub open spec fn next(s: Supervisor, e: TaskEvent) -> (Supervisor, Action) {
    if !s.primary_running {
        (s, Action::Continue)
    } else {
        match e {
            TaskEvent::HealthStopped { failed } => (
                Supervisor { health_running: false, primary_running: true },
                if failed && s.health_running {
                    Action::ReportHealthFailure
                } else {
                    Action::Continue
                },
            ),
            TaskEvent::PrimaryStopped { failed } => (
                Supervisor { health_running: false, primary_running: false },
                Action::Shutdown { abort_health: s.health_running, failed },
            ),
        }
    }
}

/// The state after a sequence of events.
pub open spec fn run(s: Supervisor, events: Seq<TaskEvent>) -> Supervisor
    decreases events.len(),
{
    if events.len() == 0 {
        s
    } else {
        next(run(s, events.drop_last()), events.last()).0
    }
}

impl Supervisor {
    /// Both tasks running, as at start-up.
    pub fn start() -> (r: Supervisor)
        ensures
            r.health_running && r.primary_running,
    {
        Supervisor { health_running: true, primary_running: true }
    }

    /// Takes in an event, moves to the next state and returns the action to perform.
    pub fn step(&mut self, event: TaskEvent) -> (r: Action)
        ensures
            (*final(self), r) == next(*old(self), event),
    {
        if !self.primary_running {
            return Action::Continue;
        }
        match event {
            TaskEvent::HealthStopped { failed } => {
                let report = failed && self.health_running;
                self.health_running = false;
                if report {
                    Action::ReportHealthFailure
                } else {
                    Action::Continue
                }
            },
            TaskEvent::PrimaryStopped { failed } => {
                let abort_health = self.health_running;
                self.health_running = false;
                self.primary_running = false;
                Action::Shutdown { abort_health, failed }
            },
        }
    }
}

/// The health listener's end never stops the service: it leaves the primary
/// client running and never asks for a shutdown.
pub proof fn lemma_health_failure_not_fatal(s: Supervisor, failed: bool)
    ensures
        next(s, TaskEvent::HealthStopped { failed }).0.primary_running == s.primary_running,
        !(next(s, TaskEvent::HealthStopped { failed }).1 is Shutdown),
{
}

/// Whatever health events came before, the end of the primary client shuts
/// the process down, cancels a health listener that still runs, and ends in
/// failure exactly when the primary client failed.
pub proof fn lemma_primary_end_decides_exit(health_events: Seq<bool>, failed: bool)
    ensures
        ({
            let before = run(
                Supervisor { health_running: true, primary_running: true },
                health_events.map_values(|f: bool| TaskEvent::HealthStopped { failed: f }),
            );
            &&& before.primary_running
            &&& next(before, TaskEvent::PrimaryStopped { failed }).1 == (Action::Shutdown {
                abort_health: before.health_running,
                failed,
            })
        }),
    decreases health_events.len(),
{
    if health_events.len() > 0 {
        lemma_primary_end_decides_exit(health_events.drop_last(), failed);
        assert(health_events.map_values(|f: bool| TaskEvent::HealthStopped { failed: f }).drop_last()
            =~= health_events.drop_last().map_values(|f: bool| TaskEvent::HealthStopped { failed: f }));
    }
}

} // verus!
