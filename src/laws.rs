//! What holds of every run of the supervisor.

use vstd::prelude::*;
use crate::config::{config_valid, metrics_task_count, NodeConfig};
use crate::supervisor::{
    initial, logging_steps, metrics_steps, pending, startup_plan, transition, view_wf, Action,
    Event, Phase, SupervisorView, EXIT_FAILURE, EXIT_SUCCESS,
};

verus! {

/// The state after the process reports each of `es` in turn.
pub open spec fn run(s: SupervisorView, es: Seq<Event>) -> SupervisorView
    decreases es.len(),
{
    if es.len() == 0 {
        s
    } else {
        run(transition(s, es[0]), es.drop_first())
    }
}

/// Whether `a` is a step that produces log output.
pub open spec fn is_logging_action(a: Action) -> bool {
    a is InitLogger || a is InitStructuredLog || a is EmitStartupRecord
}

/// Index of the first metrics step in a startup plan.
pub open spec fn first_metrics_step(c: NodeConfig, no_logging: bool) -> int {
    1 + logging_steps(c, no_logging).len() as int
}

/// Index of the step that starts the metrics task `i`.
pub open spec fn task_step(c: NodeConfig, no_logging: bool, i: int) -> int {
    first_metrics_step(c, no_logging) + i
}

/// Shape of the startup plan: the crash handler first, then the logging
/// steps, then the metrics tasks, then the environment.
pub proof fn lemma_plan_shape(c: NodeConfig, no_logging: bool)
    ensures
        ({
            let plan = startup_plan(c, no_logging);
            let k = first_metrics_step(c, no_logging);
            let n = metrics_task_count(c) as int;
            &&& plan.len() == k + n + 1
            &&& plan[0] == Action::InstallCrashHandler
            &&& forall|i: int| 1 <= i < k ==> plan[i] == logging_steps(c, no_logging)[i - 1]
            &&& forall|i: int| k <= i < k + n ==> plan[i] == Action::StartMetricsTask((i - k) as usize)
            &&& plan[k + n] == Action::SetupEnvironment
        }),
{
    let plan = startup_plan(c, no_logging);
    let head = seq![Action::InstallCrashHandler] + logging_steps(c, no_logging);
    let mid = head + metrics_steps(metrics_task_count(c));
    assert(plan == mid + seq![Action::SetupEnvironment]);
    let k = first_metrics_step(c, no_logging);
    let n = metrics_task_count(c) as int;
    assert forall|i: int| k <= i < k + n implies plan[i] == Action::StartMetricsTask((i - k) as usize) by {
        assert(plan[i] == mid[i]);
        assert(mid[i] == metrics_steps(metrics_task_count(c))[i - k]);
    }
    assert forall|i: int| 1 <= i < k implies plan[i] == logging_steps(c, no_logging)[i - 1] by {
        assert(plan[i] == mid[i]);
        assert(mid[i] == head[i]);
    }
}

/// With metrics enabled, startup starts one metrics task per full-node
/// network and one more for a validator network, each exactly once; with
/// metrics disabled it starts none.
pub proof fn lemma_metrics_task_starts(c: NodeConfig, no_logging: bool)
    requires
        c.full_node_networks@.len() <= usize::MAX,
    ensures
        metrics_task_count(c) == if c.metrics.enabled {
            c.full_node_networks@.len() + if c.validator_network is Some { 1nat } else { 0nat }
        } else {
            0nat
        },
        forall|i: int|
            0 <= i < metrics_task_count(c) ==> 0 <= #[trigger] task_step(c, no_logging, i) < startup_plan(
                c,
                no_logging,
            ).len() && startup_plan(c, no_logging)[task_step(c, no_logging, i)] == Action::StartMetricsTask(
                i as usize,
            ),
        forall|j: int|
            0 <= j < startup_plan(c, no_logging).len() && startup_plan(c, no_logging)[j] is StartMetricsTask
                ==> startup_plan(c, no_logging)[j]->StartMetricsTask_0 < metrics_task_count(c),
        forall|j1: int, j2: int|
            0 <= j1 < startup_plan(c, no_logging).len() && 0 <= j2 < startup_plan(c, no_logging).len()
                && startup_plan(c, no_logging)[j1] is StartMetricsTask
                && startup_plan(c, no_logging)[j1] == startup_plan(c, no_logging)[j2] ==> j1 == j2,
{
    lemma_plan_shape(c, no_logging);
    let plan = startup_plan(c, no_logging);
    let k = first_metrics_step(c, no_logging);
    let n = metrics_task_count(c) as int;
    assert forall|j: int| 0 <= j < plan.len() && !(k <= j < k + n) implies !(plan[j] is StartMetricsTask) by {
        if 1 <= j < k {
            assert(plan[j] == logging_steps(c, no_logging)[j - 1]);
        }
    }
}

/// Each report keeps a reachable state reachable and never changes whether
/// logging is disabled.
pub proof fn lemma_transition_wf(s: SupervisorView, e: Event)
    requires
        view_wf(s),
    ensures
        view_wf(transition(s, e)),
        transition(s, e).no_logging == s.no_logging,
{
    match (s.phase, e) {
        (Phase::Loading, Event::ConfigLoaded(c)) => {
            lemma_plan_shape(c, s.no_logging);
        },
        _ => {},
    }
}

/// Startup never asks for a logging step when logging is disabled.
pub proof fn lemma_plan_without_logging(c: NodeConfig)
    ensures
        forall|i: int| 0 <= i < startup_plan(c, true).len() ==> !is_logging_action(#[trigger] startup_plan(c, true)[i]),
{
    lemma_plan_shape(c, true);
}

/// From a reachable state with logging disabled, no sequence of reports
/// leads the supervisor to ask for a logging step.
pub proof fn lemma_no_logging_from(s: SupervisorView, es: Seq<Event>)
    requires
        view_wf(s),
        s.no_logging,
    ensures
        !is_logging_action(pending(run(s, es))),
    decreases es.len(),
{
    if es.len() == 0 {
        if let Some(c) = s.config {
            lemma_plan_without_logging(c);
        }
    } else {
        lemma_transition_wf(s, es[0]);
        lemma_no_logging_from(transition(s, es[0]), es.drop_first());
    }
}

/// With logging disabled, whatever the process reports, the supervisor
/// never asks it to set up a logger, set up structured logging, or emit
/// the startup record.
pub proof fn lemma_no_logging(es: Seq<Event>)
    ensures
        !is_logging_action(pending(run(initial(true), es))),
{
    lemma_no_logging_from(initial(true), es);
}

/// A loaded snapshot is kept exactly as it was when it is valid; an invalid
/// one ends the process with a failure status and nothing is kept.
pub proof fn lemma_config_load(no_logging: bool, c: NodeConfig)
    ensures
        config_valid(c) ==> transition(initial(no_logging), Event::ConfigLoaded(c)).config == Some(c)
            && transition(initial(no_logging), Event::ConfigLoaded(c)).phase == Phase::Starting,
        !config_valid(c) ==> transition(initial(no_logging), Event::ConfigLoaded(c)).config is None
            && transition(initial(no_logging), Event::ConfigLoaded(c)).phase == Phase::Exited(EXIT_FAILURE),
{
}

/// Once exited, the supervisor stays exited with the same status, whatever
/// is reported.
pub proof fn lemma_exit_is_final(s: SupervisorView, es: Seq<Event>)
    requires
        s.phase is Exited,
    ensures
        run(s, es) == s,
    decreases es.len(),
{
    if es.len() > 0 {
        lemma_exit_is_final(transition(s, es[0]), es.drop_first());
    }
}

/// Termination gate: while the flag is not seen set the supervisor only
/// alternates between reading the flag and parking; the first reading of a
/// set flag ends it with a success status, and a wake-up always leads to a
/// new reading.
pub proof fn lemma_termination_gate(s: SupervisorView, e: Event)
    requires
        s.phase == Phase::Checking || s.phase == Phase::Parked,
    ensures
        transition(s, e).phase is Exited <==> (s.phase == Phase::Checking && (e matches Event::Flag(true))),
        transition(s, e).phase is Exited ==> transition(s, e).phase == Phase::Exited(EXIT_SUCCESS),
        !(transition(s, e).phase is Exited) ==> transition(s, e).phase == Phase::Checking
            || transition(s, e).phase == Phase::Parked,
        (s.phase == Phase::Checking && (e matches Event::Flag(false))) ==> transition(s, e).phase == Phase::Parked,
        s.phase == Phase::Parked && e is StepDone ==> transition(s, e).phase == Phase::Checking,
{
}

/// A configuration that cannot be loaded ends the process with a failure
/// status: whatever is reported afterwards, no metrics task is started and
/// the environment is never set up.
pub proof fn lemma_config_failure(no_logging: bool, es: Seq<Event>)
    ensures
        ({
            let s = run(transition(initial(no_logging), Event::ConfigFailed), es);
            &&& s.phase == Phase::Exited(EXIT_FAILURE)
            &&& pending(s) == Action::Exit(EXIT_FAILURE)
            &&& !(pending(s) is StartMetricsTask)
            &&& pending(s) != Action::SetupEnvironment
        }),
{
    lemma_exit_is_final(transition(initial(no_logging), Event::ConfigFailed), es);
}

} // verus!
