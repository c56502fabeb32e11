//! The startup sequence and the termination gate, as a state machine.
//!
//! The process asks the supervisor what to do next, does it, and reports
//! how it went. The supervisor never performs a step itself: it decides
//! the order of the steps, stops at the first fatal failure, and keeps the
//! process parked until the termination flag is seen set.

use vstd::prelude::*;
use crate::config::{
    check_config, config_valid, metrics_identities, metrics_task_count, LoggerConfig, NodeConfig,
};
use crate::metrics::{metrics_tasks, task_matches, MetricsTask};

verus! {

/// Exit status of a process that was asked to terminate.
pub const EXIT_SUCCESS: i32 = 0;

/// Exit status of a process whose startup failed.
pub const EXIT_FAILURE: i32 = 1;

/// The next thing the process has to do.
#[derive(Clone, Copy, Debug, PartialEq, Eq, Structural)]
pub enum Action {
    /// Read and parse the configuration file.
    LoadConfig,
    /// Install the process-wide handler of unrecoverable faults.
    InstallCrashHandler,
    /// Set up the unstructured logging sink with these options.
    InitLogger(LoggerConfig),
    /// Set up the structured event sink from the process environment.
    InitStructuredLog,
    /// Emit the one structured startup record that holds the configuration.
    EmitStartupRecord,
    /// Start the periodic metrics task of the given index.
    StartMetricsTask(usize),
    /// Build and start the node runtime, and keep its handle.
    SetupEnvironment,
    /// Read the termination flag.
    CheckTermination,
    /// Block until woken.
    Park,
    /// Terminate the process with this status.
    Exit(i32),
}

/// What the process reports after performing an action.
#[derive(Debug)]
pub enum Event {
    /// The configuration file was read and parsed into this snapshot.
    ConfigLoaded(NodeConfig),
    /// The configuration file could not be read or parsed.
    ConfigFailed,
    /// The action was performed (for `Park`: the thread was woken).
    StepDone,
    /// The action failed fatally.
    StepFailed,
    /// The termination flag was read and held this value.
    Flag(bool),
}

/// Where the supervisor stands.
#[derive(Clone, Copy, Debug, PartialEq, Eq, Structural)]
pub enum Phase {
    /// Waiting for the configuration.
    Loading,
    /// Performing the startup steps.
    Starting,
    /// About to read the termination flag.
    Checking,
    /// Parked until woken.
    Parked,
    /// Done, with this exit status.
    Exited(i32),
}

/// The abstract state of a supervisor.
pub struct SupervisorView {
    pub phase: Phase,
    pub no_logging: bool,
    pub config: Option<NodeConfig>,
    /// Index of the current startup step.
    pub next: nat,
}

/// The logging steps: none when logging is disabled.
pub open spec fn logging_steps(c: NodeConfig, no_logging: bool) -> Seq<Action> {
    if no_logging {
        Seq::empty()
    } else {
        seq![Action::InitLogger(c.logger), Action::InitStructuredLog, Action::EmitStartupRecord]
    }
}

/// One start of a metrics task for each index below `n`.
pub open spec fn metrics_steps(n: nat) -> Seq<Action> {
    Seq::new(n, |i: int| Action::StartMetricsTask(i as usize))
}

/// The startup steps that follow a successful load, in order.
pub open spec fn startup_plan(c: NodeConfig, no_logging: bool) -> Seq<Action> {
    seq![Action::InstallCrashHandler] + logging_steps(c, no_logging) + metrics_steps(
        metrics_task_count(c),
    ) + seq![Action::SetupEnvironment]
}

/// The startup steps of a supervisor; empty until a snapshot was accepted.
pub open spec fn plan_of(s: SupervisorView) -> Seq<Action> {
    match s.config {
        Some(c) => startup_plan(c, s.no_logging),
        None => Seq::empty(),
    }
}

/// A reachable supervisor state: during startup the step index is in range.
pub open spec fn view_wf(s: SupervisorView) -> bool {
    s.phase == Phase::Starting ==> s.config is Some && s.next < plan_of(s).len()
}

/// The state of a fresh supervisor.
pub open spec fn initial(no_logging: bool) -> SupervisorView {
    SupervisorView { phase: Phase::Loading, no_logging, config: None, next: 0 }
}

/// What a supervisor in state `s` asks the process to do.
pub open spec fn pending(s: SupervisorView) -> Action {
    match s.phase {
        Phase::Loading => Action::LoadConfig,
        Phase::Starting => plan_of(s)[s.next as int],
        Phase::Checking => Action::CheckTermination,
        Phase::Parked => Action::Park,
        Phase::Exited(code) => Action::Exit(code),
    }
}

/// `s` in another phase, everything else kept.
pub open spec fn with_phase(s: SupervisorView, phase: Phase) -> SupervisorView {
    SupervisorView { phase, ..s }
}

/// The state after the process reports `e` in state `s`. A report that
/// does not answer the pending action leaves the state as it is.
pub open spec fn transition(s: SupervisorView, e: Event) -> SupervisorView {
    match (s.phase, e) {
        (Phase::Loading, Event::ConfigLoaded(c)) => if config_valid(c) {
            SupervisorView { phase: Phase::Starting, no_logging: s.no_logging, config: Some(c), next: 0 }
        } else {
            with_phase(s, Phase::Exited(EXIT_FAILURE))
        },
        (Phase::Loading, Event::ConfigFailed) => with_phase(s, Phase::Exited(EXIT_FAILURE)),
        (Phase::Starting, Event::StepDone) => if s.next + 1 < plan_of(s).len() {
            SupervisorView { next: s.next + 1, ..s }
        } else {
            with_phase(s, Phase::Checking)
        },
        (Phase::Starting, Event::StepFailed) => with_phase(s, Phase::Exited(EXIT_FAILURE)),
        (Phase::Checking, Event::Flag(set)) => if set {
            with_phase(s, Phase::Exited(EXIT_SUCCESS))
        } else {
            with_phase(s, Phase::Parked)
        },
        (Phase::Parked, Event::StepDone) => with_phase(s, Phase::Checking),
        _ => s,
    }
}

/// Drives a node process from its configuration to its termination.
pub struct Supervisor {
    phase: Phase,
    no_logging: bool,
    config: Option<NodeConfig>,
    plan: Vec<Action>,
    tasks: Vec<MetricsTask>,
    next: usize,
}

impl View for Supervisor {
    type V = SupervisorView;

    closed spec fn view(&self) -> SupervisorView {
        SupervisorView {
            phase: self.phase,
            no_logging: self.no_logging,
            config: self.config,
            next: self.next as nat,
        }
    }
}

/// Builds the startup steps of `config`; `n_tasks` is its number of
/// metrics tasks.
fn build_plan(config: &NodeConfig, no_logging: bool, n_tasks: usize) -> (r: Vec<Action>)
    requires
        n_tasks == metrics_task_count(*config),
    ensures
        r@ == startup_plan(*config, no_logging),
{
    let mut r: Vec<Action> = Vec::new();
    r.push(Action::InstallCrashHandler);
    if !no_logging {
        r.push(Action::InitLogger(config.logger));
        r.push(Action::InitStructuredLog);
        r.push(Action::EmitStartupRecord);
    }
    let ghost head = r@;
    assert(head =~= seq![Action::InstallCrashHandler] + logging_steps(*config, no_logging));
    let mut i: usize = 0;
    while i < n_tasks
        invariant
            i <= n_tasks,
            r@ =~= head + metrics_steps(i as nat),
        decreases n_tasks - i,
    {
        r.push(Action::StartMetricsTask(i));
        i = i + 1;
    }
    r.push(Action::SetupEnvironment);
    r
}

impl Supervisor {
    /// Well-formedness: the stored steps and tasks are those of the stored
    /// snapshot.
    pub closed spec fn wf(&self) -> bool {
        &&& view_wf(self@)
        &&& match self.config {
            Some(c) => {
                &&& self.plan@ == startup_plan(c, self.no_logging)
                &&& self.tasks@.len() == metrics_task_count(c)
                &&& forall|i: int|
                    0 <= i < self.tasks@.len() ==> task_matches(
                        #[trigger] self.tasks@[i],
                        c,
                        metrics_identities(c)[i],
                    )
            },
            None => self.plan@.len() == 0 && self.tasks@.len() == 0,
        }
    }

    /// A supervisor that has not loaded its configuration yet.
    pub fn new(no_logging: bool) -> (r: Self)
        ensures
            r.wf(),
            r@ == initial(no_logging),
    {
        Supervisor {
            phase: Phase::Loading,
            no_logging,
            config: None,
            plan: Vec::new(),
            tasks: Vec::new(),
            next: 0,
        }
    }

    /// The current phase.
    pub fn phase(&self) -> (r: Phase)
        ensures
            r == self@.phase,
    {
        self.phase
    }

    /// The action that the process has to perform now.
    pub fn pending(&self) -> (r: Action)
        requires
            self.wf(),
        ensures
            r == pending(self@),
    {
        match self.phase {
            Phase::Loading => Action::LoadConfig,
            Phase::Starting => self.plan[self.next],
            Phase::Checking => Action::CheckTermination,
            Phase::Parked => Action::Park,
            Phase::Exited(code) => Action::Exit(code),
        }
    }

    /// Takes the report of the last action and returns the next one.
    pub fn step(&mut self, event: Event) -> (r: Action)
        requires
            old(self).wf(),
        ensures
            final(self).wf(),
            final(self)@ == transition(old(self)@, event),
            view_wf(final(self)@),
            r == pending(final(self)@),
    {
        match (self.phase, event) {
            (Phase::Loading, Event::ConfigLoaded(c)) => {
                match check_config(c) {
                    Ok(c) => {
                        let tasks = metrics_tasks(&c);
                        let plan = build_plan(&c, self.no_logging, tasks.len());
                        self.plan = plan;
                        self.tasks = tasks;
                        self.config = Some(c);
                        self.next = 0;
                        self.phase = Phase::Starting;
                    },
                    Err(_) => {
                        self.phase = Phase::Exited(EXIT_FAILURE);
                    },
                }
            },
            (Phase::Loading, Event::ConfigFailed) => {
                self.phase = Phase::Exited(EXIT_FAILURE);
            },
            (Phase::Starting, Event::StepDone) => {
                let len = self.plan.len();
                if self.next + 1 < len {
                    self.next = self.next + 1;
                } else {
                    self.phase = Phase::Checking;
                }
            },
            (Phase::Starting, Event::StepFailed) => {
                self.phase = Phase::Exited(EXIT_FAILURE);
            },
            (Phase::Checking, Event::Flag(set)) => {
                if set {
                    self.phase = Phase::Exited(EXIT_SUCCESS);
                } else {
                    self.phase = Phase::Parked;
                }
            },
            (Phase::Parked, Event::StepDone) => {
                self.phase = Phase::Checking;
            },
            _ => {},
        }
        self.pending()
    }

    /// The metrics task that `Action::StartMetricsTask(i)` starts, if any.
    pub fn metrics_task(&self, i: usize) -> (r: Option<&MetricsTask>)
        requires
            self.wf(),
        ensures
            match self@.config {
                Some(c) => if i < metrics_task_count(c) {
                    r is Some && task_matches(*r->Some_0, c, metrics_identities(c)[i as int])
                } else {
                    r is None
                },
                None => r is None,
            },
    {
        if i < self.tasks.len() {
            Some(&self.tasks[i])
        } else {
            None
        }
    }
}

} // verus!
