//! The periodic update tasks: which domains each one owns, how often it
//! runs, how it reacts to its timer and to the shutdown signal, and how its
//! collectors' outcomes reach the state record.

use vstd::prelude::*;
use crate::config::{Config, ShortcutsConfig};
use crate::state::{Domain, LinkButton, Reading, VacuumState};

verus! {

/// The independent periodic tasks, one per group of domains.
#[derive(Debug, Clone, Copy, PartialEq, Eq, Structural)]
pub enum TaskKind {
    /// System snapshot, storage, user and switches.
    SystemInfo,
    /// Network status and traffic.
    Network,
    /// Media status and volume.
    Audio,
    /// Weather.
    Weather,
}

impl TaskKind {
    /// The domains that tasks of this kind, and no others, write.
    pub open spec fn owns(self, d: Domain) -> bool {
        match self {
            TaskKind::SystemInfo => d is System || d is Storage || d is User || d is Toggles,
            TaskKind::Network => d is NetworkStatus || d is NetworkTraffic,
            TaskKind::Audio => d is Audio || d is Volume,
            TaskKind::Weather => d is Weather,
        }
    }

    /// Whether tasks of this kind own domain `d`.
    pub fn owns_domain(self, d: Domain) -> (r: bool)
        ensures
            r == self.owns(d),
    {
        match self {
            TaskKind::SystemInfo => match d {
                Domain::System | Domain::Storage | Domain::User | Domain::Toggles => true,
                _ => false,
            },
            TaskKind::Network => match d {
                Domain::NetworkStatus | Domain::NetworkTraffic => true,
                _ => false,
            },
            TaskKind::Audio => match d {
                Domain::Audio | Domain::Volume => true,
                _ => false,
            },
            TaskKind::Weather => match d {
                Domain::Weather => true,
                _ => false,
            },
        }
    }

    /// The task's period in seconds: 5 for the system snapshot, 2 for the
    /// network, 1 for audio, and the configured number of minutes for the
    /// weather.
    pub open spec fn period(self, config: Config) -> int {
        match self {
            TaskKind::SystemInfo => 5,
            TaskKind::Network => 2,
            TaskKind::Audio => 1,
            TaskKind::Weather => config.weather.update_interval_minutes * 60,
        }
    }

    /// The task's period in seconds (see `period`).
    pub fn interval_secs(self, config: &Config) -> (r: u64)
        ensures
            r == self.period(*config),
    {
        match self {
            TaskKind::SystemInfo => 5,
            TaskKind::Network => 2,
            TaskKind::Audio => 1,
            TaskKind::Weather => config.weather.update_interval_minutes as u64 * 60,
        }
    }
}

/// Every domain is owned by exactly one task.
pub proof fn lemma_single_owner(d: Domain)
    ensures
        exists|t: TaskKind| #[trigger] t.owns(d),
        forall|t: TaskKind, u: TaskKind| t.owns(d) && u.owns(d) ==> t == u,
{
    match d {
        Domain::System | Domain::Storage | Domain::User | Domain::Toggles => {
            assert(TaskKind::SystemInfo.owns(d));
        },
        Domain::NetworkStatus | Domain::NetworkTraffic => {
            assert(TaskKind::Network.owns(d));
        },
        Domain::Audio | Domain::Volume => {
            assert(TaskKind::Audio.owns(d));
        },
        Domain::Weather => {
            assert(TaskKind::Weather.owns(d));
        },
    }
}

/// What wakes a periodic task.
#[derive(Debug, Clone, Copy, PartialEq, Eq, Structural)]
pub enum TaskEvent {
    Tick,
    ShutdownSignal,
}

/// What a periodic task does next.
#[derive(Debug, Clone, Copy, PartialEq, Eq, Structural)]
pub enum TaskStep {
    /// Run the collectors and record their outcomes.
    Collect,
    /// Leave the loop.
    Exit,
}

/// One periodic task's control state.
#[derive(Debug, Clone, Copy, PartialEq, Eq, Structural)]
pub struct PeriodicTask {
    pub kind: TaskKind,
    pub stopped: bool,
}

impl PeriodicTask {
    /// The task after `e`, and what it does: a shutdown signal stops it for
    /// good; a tick collects unless it has stopped.
    pub open spec fn next(self, e: TaskEvent) -> (PeriodicTask, TaskStep) {
        match e {
            TaskEvent::ShutdownSignal => (PeriodicTask { stopped: true, ..self }, TaskStep::Exit),
            TaskEvent::Tick => if self.stopped {
                (self, TaskStep::Exit)
            } else {
                (self, TaskStep::Collect)
            },
        }
    }

    /// What the task does on each of `es`, in turn.
    pub open spec fn run(self, es: Seq<TaskEvent>) -> Seq<TaskStep>
        decreases es.len(),
    {
        if es.len() == 0 {
            Seq::empty()
        } else {
            let (t, s) = self.next(es[0]);
            seq![s] + t.run(es.drop_first())
        }
    }

    /// A running task of kind `kind`.
    pub fn new(kind: TaskKind) -> (r: PeriodicTask)
        ensures
            r.kind == kind,
            !r.stopped,
    {
        PeriodicTask { kind, stopped: false }
    }

    /// Reacts to `e` (see `next`).
    pub fn on_event(&mut self, e: TaskEvent) -> (r: TaskStep)
        ensures
            (*final(self), r) == old(self).next(e),
    {
        match e {
            TaskEvent::ShutdownSignal => {
                self.stopped = true;
                TaskStep::Exit
            },
            TaskEvent::Tick => if self.stopped {
                TaskStep::Exit
            } else {
                TaskStep::Collect
            },
        }
    }

    /// The record after the task writes a collector's outcome: only a
    /// running task writes, and only into a domain it owns.
    pub open spec fn written(self, s: VacuumState, outcome: Result<Reading, String>) -> VacuumState {
        match outcome {
            Ok(r) => if !self.stopped && self.kind.owns(r.domain()) {
                s.with_reading(r)
            } else {
                s
            },
            Err(_) => s,
        }
    }

    /// Writes a collector's outcome into the record (see `written`).
    pub fn record(&self, state: &mut VacuumState, outcome: Result<Reading, String>)
        ensures
            *final(state) == self.written(*old(state), outcome),
    {
        if let Ok(r) = &outcome {
            if self.stopped || !self.kind.owns_domain(r.domain_of()) {
                return;
            }
        }
        state.record(outcome);
    }
}

/// A task takes one step per event.
pub proof fn lemma_run_len(t: PeriodicTask, es: Seq<TaskEvent>)
    ensures
        t.run(es).len() == es.len(),
    decreases es.len(),
{
    if es.len() > 0 {
        lemma_run_len(t.next(es[0]).0, es.drop_first());
    }
}

/// Once a task has seen the shutdown signal it exits on every later event,
/// tick or not, and writes nothing more.
pub proof fn lemma_exit_after_shutdown(t: PeriodicTask, es: Seq<TaskEvent>)
    ensures
        forall|i: int| 0 <= i < es.len() ==> #[trigger] t.next(TaskEvent::ShutdownSignal).0.run(
            es,
        )[i] == TaskStep::Exit,
        forall|s: VacuumState, o: Result<Reading, String>| #[trigger] t.next(
            TaskEvent::ShutdownSignal,
        ).0.written(s, o) == s,
    decreases es.len(),
{
    let u = t.next(TaskEvent::ShutdownSignal).0;
    if es.len() > 0 {
        lemma_exit_after_shutdown(t, es.drop_first());
        assert(u.next(es[0]).0 == u);
        lemma_run_len(u, es.drop_first());
        assert forall|i: int| 0 <= i < es.len() implies #[trigger] u.run(es)[i] == TaskStep::Exit by {
            if i > 0 {
                assert(u.run(es)[i] == u.run(es.drop_first())[i - 1]);
            }
        }
    }
}

/// On a tick whose write reaches the record, a running task's fresh value of
/// a domain it owns becomes that domain's value, and nothing else changes.
pub proof fn lemma_task_write_through(t: PeriodicTask, s: VacuumState, r: Reading)
    requires
        !t.stopped,
        t.kind.owns(r.domain()),
    ensures
        t.written(s, Ok(r)).reading_of(r.domain()) == r,
        forall|d: Domain| d != r.domain() ==> #[trigger] t.written(s, Ok(r)).reading_of(d) == s.reading_of(d),
        t.written(s, Ok(r)).launcher_shortcuts == s.launcher_shortcuts,
{
    crate::state::lemma_write_through(s, r);
}

/// A failed collection leaves the record, every domain included, as it was.
pub proof fn lemma_task_stale_on_failure(t: PeriodicTask, s: VacuumState, e: String)
    ensures
        t.written(s, Err(e)) == s,
        forall|d: Domain| #[trigger] t.written(s, Err(e)).reading_of(d) == s.reading_of(d),
{
}

/// A task writes only the domains it owns: every other domain, and the
/// shortcuts, keep their values.
pub proof fn lemma_writes_stay_in_domain(
    t: PeriodicTask,
    s: VacuumState,
    o: Result<Reading, String>,
    d: Domain,
)
    requires
        !t.kind.owns(d),
    ensures
        t.written(s, o).reading_of(d) == s.reading_of(d),
        t.written(s, o).launcher_shortcuts == s.launcher_shortcuts,
{
}

/// The record's shortcuts are those of the configuration: one button per
/// configured link, in order, and the same launcher command.
pub open spec fn shows_shortcuts(s: VacuumState, c: ShortcutsConfig) -> bool {
    &&& s.launcher_shortcuts.left_links@.len() == c.left_links@.len()
    &&& forall|i: int|
        0 <= i < c.left_links@.len() ==> #[trigger] s.launcher_shortcuts.left_links@[i].is(
            c.left_links@[i].label@,
            c.left_links@[i].url@,
            c.left_links@[i].icon_name@,
        )
    &&& s.launcher_shortcuts.rofi_command == c.rofi_command
}

/// Copies the configured shortcuts into the record, once, at startup. No
/// collected domain changes.
pub fn install_shortcuts(state: &mut VacuumState, config: &ShortcutsConfig)
    ensures
        shows_shortcuts(*final(state), *config),
        forall|d: Domain| #[trigger] final(state).reading_of(d) == old(state).reading_of(d),
{
    let mut links: Vec<LinkButton> = Vec::new();
    let n = config.left_links.len();
    let mut i: usize = 0;
    while i < n
        invariant
            n == config.left_links@.len(),
            i <= n,
            links@.len() == i,
            forall|j: int|
                0 <= j < i ==> #[trigger] links@[j].is(
                    config.left_links@[j].label@,
                    config.left_links@[j].url@,
                    config.left_links@[j].icon_name@,
                ),
        decreases n - i,
    {
        let link = &config.left_links[i];
        links.push(
            LinkButton {
                label: link.label.clone(),
                url: link.url.clone(),
                icon_name: link.icon_name.clone(),
            },
        );
        i = i + 1;
    }
    state.launcher_shortcuts.left_links = links;
    state.launcher_shortcuts.rofi_command = config.rofi_command.clone();
}

} // verus!
