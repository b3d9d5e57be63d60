use poolbench::counts::Actor;
use poolbench::counts::ControlAction;
use poolbench::counts::ThreadCounts;
use poolbench::policy::ComputeRoutine;
use poolbench::policy::ControlTarget;
use poolbench::policy::CoordinationPolicy;
use poolbench::policy::ScenarioSpec;
use poolbench::policy::in_task_actions;
use poolbench::policy::pre_dispatch_actions;
use poolbench::scheduler::ObservationRecord;
use poolbench::scheduler::all_counts_equal;
use poolbench::scheduler::records_cover_units;
use poolbench::scheduler::run_scenario;

fn scenario(policy: CoordinationPolicy) -> ScenarioSpec {
    ScenarioSpec { policy, target: ControlTarget::Library, routine: ComputeRoutine::Multiply }
}

#[test]
fn sixteen_units_sixteen_distinct_records() {
    let mut counts = ThreadCounts::new(4, 8, 8);
    let outcome = run_scenario(scenario(CoordinationPolicy::InnerGlobal), &mut counts, 16, 1);
    assert_eq!(outcome.records.len(), 16);
    for (i, r) in outcome.records.iter().enumerate() {
        assert_eq!(r.unit, i);
        assert_eq!(r.worker, i % 4);
    }
    assert!(records_cover_units(&outcome.records, 16));
}

#[test]
fn inner_resets_are_idempotent() {
    // Every worker re-applies the same shared setter; each reads back the
    // value it wrote and the coordinator ends on it too.
    for policy in [CoordinationPolicy::InnerGlobal, CoordinationPolicy::InnerProcessWide] {
        let mut counts = ThreadCounts::new(4, 8, 8);
        let outcome = run_scenario(scenario(policy), &mut counts, 16, 1);
        assert!(all_counts_equal(&outcome.records, 1));
        assert_eq!(outcome.final_count, 1);
    }
}

#[test]
fn outer_global_setting_holds_for_workers_and_coordinator() {
    // Problem of the reference scenario: 16 units over a pool of width 4,
    // the global setter applied once with 1 before dispatch.
    let mut counts = ThreadCounts::new(4, 8, 8);
    let outcome = run_scenario(scenario(CoordinationPolicy::OuterGlobal), &mut counts, 16, 1);
    assert_eq!(outcome.records.len(), 16);
    assert!(all_counts_equal(&outcome.records, 1));
    assert_eq!(outcome.final_count, 1);
}

#[test]
fn inner_thread_local_does_not_leak_to_coordinator() {
    let mut counts = ThreadCounts::new(4, 8, 8);
    let outcome = run_scenario(scenario(CoordinationPolicy::InnerThreadLocal), &mut counts, 16, 5);
    assert!(all_counts_equal(&outcome.records, 5));
    // The coordinator never set a thread-local value, so its final read
    // still reports the ambient count from before the run.
    assert_eq!(outcome.final_count, 8);
}

#[test]
fn aux_target_reads_aux_runtime() {
    let s = ScenarioSpec {
        policy: CoordinationPolicy::OuterGlobal,
        target: ControlTarget::AuxRuntime,
        routine: ComputeRoutine::Multiply,
    };
    let mut counts = ThreadCounts::new(2, 6, 9);
    let outcome = run_scenario(s, &mut counts, 4, 2);
    // The auxiliary pair was set to 2 pre-dispatch; the library's own
    // ambient count is untouched.
    assert!(all_counts_equal(&outcome.records, 2));
    assert_eq!(outcome.final_count, 2);
    assert_eq!(counts.read(Actor::Coordinator), 6);
    // Only the auxiliary pair was written, so the two control surfaces
    // have drifted apart.
    assert!(!counts.pairs_consistent());
    counts.apply(Actor::Coordinator, ControlAction::SetAmbient(2));
    assert!(counts.pairs_consistent());
}

#[test]
fn worker_local_values_are_isolated() {
    // Each worker sets a distinct thread-local value; each reads back its
    // own, and nobody else's; the coordinator is untouched.
    let mut counts = ThreadCounts::new(3, 8, 8);
    counts.apply(Actor::Worker(0), ControlAction::SetLocal(11));
    counts.apply(Actor::Worker(1), ControlAction::SetLocal(12));
    counts.apply(Actor::Worker(2), ControlAction::SetLocal(13));
    assert_eq!(counts.read(Actor::Worker(0)), 11);
    assert_eq!(counts.read(Actor::Worker(1)), 12);
    assert_eq!(counts.read(Actor::Worker(2)), 13);
    assert_eq!(counts.read(Actor::Coordinator), 8);
}

#[test]
fn ambient_set_is_seen_by_workers_without_overrides() {
    let mut counts = ThreadCounts::new(2, 8, 8);
    counts.apply(Actor::Worker(0), ControlAction::SetLocal(3));
    counts.apply(Actor::Coordinator, ControlAction::SetAmbient(2));
    // The override wins on its own thread; the other worker follows the
    // ambient count.
    assert_eq!(counts.read(Actor::Worker(0)), 3);
    assert_eq!(counts.read(Actor::Worker(1)), 2);
    assert_eq!(counts.read_aux(), 8);
}

#[test]
fn action_plans_per_policy() {
    let outer = scenario(CoordinationPolicy::OuterGlobal);
    assert_eq!(pre_dispatch_actions(outer, 1), vec![ControlAction::SetAmbient(1)]);
    assert_eq!(in_task_actions(outer, 1), vec![]);

    let inner = scenario(CoordinationPolicy::InnerGlobal);
    assert_eq!(pre_dispatch_actions(inner, 1), vec![]);
    assert_eq!(in_task_actions(inner, 1), vec![ControlAction::SetAmbient(1)]);

    let process = scenario(CoordinationPolicy::InnerProcessWide);
    assert_eq!(in_task_actions(process, 1), vec![ControlAction::SetAmbient(1)]);

    let local = scenario(CoordinationPolicy::InnerThreadLocal);
    assert_eq!(in_task_actions(local, 1), vec![ControlAction::SetLocal(1)]);

    let aux = ScenarioSpec {
        policy: CoordinationPolicy::OuterGlobal,
        target: ControlTarget::AuxRuntime,
        routine: ComputeRoutine::Multiply,
    };
    assert_eq!(pre_dispatch_actions(aux, 4), vec![ControlAction::SetAux(4)]);
}

fn record(unit: usize, count: i32) -> ObservationRecord {
    ObservationRecord { unit, worker: 0, elapsed_ns: 0, cpu_milli_percent: 0, thread_count: count }
}

#[test]
fn coverage_verdict_rejects_bad_record_lists() {
    let good = vec![record(2, 1), record(0, 1), record(1, 1)];
    assert!(records_cover_units(&good, 3));

    let duplicated = vec![record(0, 1), record(1, 1), record(1, 1)];
    assert!(!records_cover_units(&duplicated, 3));

    let short = vec![record(0, 1), record(1, 1)];
    assert!(!records_cover_units(&short, 3));

    let out_of_range = vec![record(0, 1), record(1, 1), record(3, 1)];
    assert!(!records_cover_units(&out_of_range, 3));
}

#[test]
fn count_verdict_spots_mismatch() {
    let rs = vec![record(0, 1), record(1, 1), record(2, 4)];
    assert!(!all_counts_equal(&rs, 1));
    assert!(all_counts_equal(&rs[..2].to_vec(), 1));
    assert!(all_counts_equal(&Vec::new(), 7));
}
