//! The outer scheduler and its reference semantics.  A run drains work-unit
//! indices `0..n` exactly once each, assigning unit `i` to worker `i % width`
//! of a fixed-width pool; for each unit the worker performs the scenario's
//! in-task control calls, then reads the thread count the library reports to
//! it.  `run_scenario` executes this protocol against the thread-count model
//! and is proved equal to the recursive specification `spec_run`, about which
//! the run-level laws are stated; the unverified shell replays the same plans
//! against the real library and checks what came back with the verdict
//! functions at the bottom.

use vstd::prelude::*;

use crate::counts::Actor;
use crate::counts::ControlAction;
use crate::counts::CountsView;
use crate::counts::ThreadCounts;
use crate::counts::actor_valid;
use crate::counts::no_local_overrides;
use crate::counts::spec_apply;
use crate::counts::spec_apply_all;
use crate::counts::spec_read;
use crate::policy::ControlTarget;
use crate::policy::ScenarioSpec;
use crate::policy::in_task_actions;
use crate::policy::pre_dispatch_actions;
use crate::policy::spec_in_task_actions;
use crate::policy::spec_pre_dispatch_actions;

verus! {

/// Per-call outcome: which worker ran which unit, how long the compute call
/// took, the sampled process CPU percentage (in thousandths of a percent),
/// and the thread count the library reported at call time.  Produced once
/// per work unit, never mutated.
#[derive(Clone, Copy, PartialEq, Eq, Structural, Debug)]
pub struct ObservationRecord {
    pub unit: usize,
    pub worker: usize,
    pub elapsed_ns: u64,
    pub cpu_milli_percent: u32,
    pub thread_count: i32,
}

/// The part of a record the reference semantics predicts; timing is measured
/// by the shell and not modelled.
pub struct RecordModel {
    pub unit: int,
    pub worker: int,
    pub count: i32,
}

/// What one whole run leaves behind.
pub struct RunOutcome {
    pub records: Vec<ObservationRecord>,
    pub final_count: i32,
}

/// What a scenario's read reports to `a`: the auxiliary runtime knows no
/// thread-local scope, the library's getter reflects it.
pub open spec fn spec_scenario_read(v: CountsView, s: ScenarioSpec, a: Actor) -> i32 {
    match s.target {
        ControlTarget::AuxRuntime => v.aux,
        ControlTarget::Library => spec_read(v, a),
    }
}

/// Read the count as the scenario observes it.
pub fn scenario_read(counts: &ThreadCounts, s: ScenarioSpec, a: Actor) -> (n: i32)
    requires
        actor_valid(counts@, a),
    ensures
        n == spec_scenario_read(counts@, s, a),
{
    match s.target {
        ControlTarget::AuxRuntime => counts.read_aux(),
        ControlTarget::Library => counts.read(a),
    }
}

/// An action by a valid actor never changes the pool width.
pub proof fn lemma_apply_preserves_width(v: CountsView, a: Actor, action: ControlAction)
    requires
        actor_valid(v, a),
    ensures
        spec_apply(v, a, action).worker_locals.len() == v.worker_locals.len(),
{
}

/// A list of actions by a valid actor never changes the pool width.
pub proof fn lemma_apply_all_preserves_width(v: CountsView, a: Actor, actions: Seq<ControlAction>)
    requires
        actor_valid(v, a),
    ensures
        spec_apply_all(v, a, actions).worker_locals.len() == v.worker_locals.len(),
    decreases actions.len(),
{
    if actions.len() > 0 {
        lemma_apply_preserves_width(v, a, actions[0]);
        lemma_apply_all_preserves_width(spec_apply(v, a, actions[0]), a, actions.drop_first());
    }
}

/// Folding one more action onto the end of a list.
pub proof fn lemma_apply_all_push(
    v: CountsView,
    a: Actor,
    actions: Seq<ControlAction>,
    action: ControlAction,
)
    ensures
        spec_apply_all(v, a, actions.push(action)) == spec_apply(
            spec_apply_all(v, a, actions),
            a,
            action,
        ),
    decreases actions.len(),
{
    reveal_with_fuel(spec_apply_all, 2);
    if actions.len() == 0 {
        assert(actions.push(action).drop_first() =~= Seq::<ControlAction>::empty());
    } else {
        assert(actions.push(action)[0] == actions[0]);
        assert(actions.push(action).drop_first() =~= actions.drop_first().push(action));
        lemma_apply_all_push(spec_apply(v, a, actions[0]), a, actions.drop_first(), action);
    }
}

/// Perform a whole plan of control calls as `a`.
pub fn apply_actions(counts: &mut ThreadCounts, a: Actor, actions: &Vec<ControlAction>)
    requires
        actor_valid(old(counts)@, a),
    ensures
        final(counts)@ == spec_apply_all(old(counts)@, a, actions@),
{
    let mut i: usize = 0;
    while i < actions.len()
        invariant
            i <= actions@.len(),
            actor_valid(old(counts)@, a),
            counts@ == spec_apply_all(old(counts)@, a, actions@.take(i as int)),
            counts@.worker_locals.len() == old(counts)@.worker_locals.len(),
        decreases actions@.len() - i,
    {
        proof {
            lemma_apply_preserves_width(counts@, a, actions@[i as int]);
            lemma_apply_all_push(old(counts)@, a, actions@.take(i as int), actions@[i as int]);
            assert(actions@.take(i as int).push(actions@[i as int]) =~= actions@.take(
                i as int + 1,
            ));
        }
        counts.apply(a, actions[i]);
        i += 1;
    }
    proof {
        assert(actions@.take(actions@.len() as int) =~= actions@);
    }
}

/// One unit of the reference run: worker `unit % width` performs the in-task
/// plan, then reads what the scenario observes.
pub open spec fn spec_step(
    v: CountsView,
    s: ScenarioSpec,
    unit: int,
    width: nat,
    value: i32,
) -> (CountsView, RecordModel) {
    let w = unit % width as int;
    let v1 = spec_apply_all(v, Actor::Worker(w as usize), spec_in_task_actions(s, value));
    let rec = RecordModel {
        unit,
        worker: w,
        count: spec_scenario_read(v1, s, Actor::Worker(w as usize)),
    };
    (v1, rec)
}

/// The reference run over units `0..n`, in unit order.  The concurrent pool
/// interleaves the same per-unit steps; this sequence is the serialization
/// in which every unit is claimed exactly once.
pub open spec fn spec_run(v: CountsView, s: ScenarioSpec, width: nat, n: nat, value: i32) -> (
    CountsView,
    Seq<RecordModel>,
)
    decreases n,
{
    if n == 0 {
        (v, Seq::<RecordModel>::empty())
    } else {
        let prev = spec_run(v, s, width, (n - 1) as nat, value);
        let st = spec_step(prev.0, s, n - 1, width, value);
        (st.0, prev.1.push(st.1))
    }
}

/// The executable records carry exactly the predicted identities and counts.
pub open spec fn records_match(rs: Seq<ObservationRecord>, ms: Seq<RecordModel>) -> bool {
    &&& rs.len() == ms.len()
    &&& forall|i: int|
        0 <= i < rs.len() ==> {
            &&& (#[trigger] rs[i]).unit == ms[i].unit
            &&& rs[i].worker == ms[i].worker
            &&& rs[i].thread_count == ms[i].count
        }
}

/// Run one scenario against the thread-count model: the coordinator performs
/// the pre-dispatch plan once, every unit is claimed exactly once by worker
/// `unit % width`, and the coordinator reads once more after the drain.  The
/// reference run's timing fields are zero; the shell fills them from real
/// measurements.
pub fn run_scenario(s: ScenarioSpec, counts: &mut ThreadCounts, n_units: usize, value: i32) -> (r:
    RunOutcome)
    requires
        old(counts)@.worker_locals.len() >= 1,
    ensures
        ({
            let width = old(counts)@.worker_locals.len();
            let v0 = spec_apply_all(
                old(counts)@,
                Actor::Coordinator,
                spec_pre_dispatch_actions(s, value),
            );
            let run = spec_run(v0, s, width, n_units as nat, value);
            &&& final(counts)@ == run.0
            &&& records_match(r.records@, run.1)
            &&& r.final_count == spec_scenario_read(run.0, s, Actor::Coordinator)
        }),
        r.records@.len() == n_units,
        forall|i: int|
            0 <= i < n_units ==> {
                &&& (#[trigger] r.records@[i]).unit == i
                &&& r.records@[i].worker == i % old(counts)@.worker_locals.len() as int
                &&& r.records@[i].elapsed_ns == 0
                &&& r.records@[i].cpu_milli_percent == 0
            },
{
    let width = counts.width();
    let ghost width_s = counts@.worker_locals.len();
    let pre = pre_dispatch_actions(s, value);
    apply_actions(counts, Actor::Coordinator, &pre);
    let ghost v0 = counts@;
    proof {
        lemma_apply_all_preserves_width(old(counts)@, Actor::Coordinator, pre@);
    }
    let plan = in_task_actions(s, value);
    let mut records: Vec<ObservationRecord> = Vec::new();
    let mut i: usize = 0;
    while i < n_units
        invariant
            width >= 1,
            width == width_s,
            v0.worker_locals.len() == width_s,
            plan@ == spec_in_task_actions(s, value),
            i <= n_units,
            counts@ == spec_run(v0, s, width_s, i as nat, value).0,
            counts@.worker_locals.len() == width_s,
            records_match(records@, spec_run(v0, s, width_s, i as nat, value).1),
            records@.len() == i,
            forall|k: int|
                0 <= k < i ==> {
                    &&& (#[trigger] records@[k]).unit == k
                    &&& records@[k].worker == k % width_s as int
                    &&& records@[k].elapsed_ns == 0
                    &&& records@[k].cpu_milli_percent == 0
                },
        decreases n_units - i,
    {
        let w = i % width;
        apply_actions(counts, Actor::Worker(w), &plan);
        proof {
            lemma_apply_all_preserves_width(
                spec_run(v0, s, width_s, i as nat, value).0,
                Actor::Worker(w),
                plan@,
            );
        }
        let count = scenario_read(counts, s, Actor::Worker(w));
        records.push(
            ObservationRecord {
                unit: i,
                worker: w,
                elapsed_ns: 0,
                cpu_milli_percent: 0,
                thread_count: count,
            },
        );
        i += 1;
    }
    let final_count = scenario_read(counts, s, Actor::Coordinator);
    RunOutcome { records, final_count }
}

/// Exactly-once dispatch: records whose unit identifiers are their positions
/// are pairwise distinct.
pub proof fn lemma_units_distinct(rs: Seq<ObservationRecord>)
    requires
        forall|i: int| 0 <= i < rs.len() ==> (#[trigger] rs[i]).unit == i,
    ensures
        forall|i: int, j: int|
            #![trigger rs[i], rs[j]]
            0 <= i < rs.len() && 0 <= j < rs.len() && i != j ==> rs[i].unit != rs[j].unit,
{
}

/// Under `OuterGlobal`, a run started with the target count already at
/// `value` and no thread-local overrides changes nothing: every worker reads
/// `value` and the state comes out as it went in.
pub proof fn lemma_outer_global_run(
    v: CountsView,
    s: ScenarioSpec,
    width: nat,
    n: nat,
    value: i32,
)
    requires
        s.policy is OuterGlobal,
        no_local_overrides(v),
        width >= 1,
        v.worker_locals.len() == width,
        s.target is Library ==> v.ambient == value,
        s.target is AuxRuntime ==> v.aux == value,
    ensures
        spec_run(v, s, width, n, value).0 == v,
        spec_run(v, s, width, n, value).1.len() == n,
        forall|i: int| 0 <= i < n ==> (#[trigger] spec_run(v, s, width, n, value).1[i]).count
            == value,
    decreases n,
{
    if n > 0 {
        lemma_outer_global_run(v, s, width, (n - 1) as nat, value);
        assert(spec_in_task_actions(s, value) =~= Seq::<ControlAction>::empty());
        assert(spec_run(v, s, width, n, value).1 =~= spec_run(
            v,
            s,
            width,
            (n - 1) as nat,
            value,
        ).1.push(spec_step(v, s, n - 1, width, value).1));
    }
}

/// Under `OuterGlobal`, the count set once before dispatch is what every
/// worker reads during the run and what the coordinator reads after it: a
/// single ambient setting holds for all workers and the coordinator.
pub proof fn lemma_outer_global_holds(
    v: CountsView,
    s: ScenarioSpec,
    width: nat,
    n: nat,
    value: i32,
)
    requires
        s.policy is OuterGlobal,
        no_local_overrides(v),
        width >= 1,
        v.worker_locals.len() == width,
    ensures
        ({
            let v0 = spec_apply_all(v, Actor::Coordinator, spec_pre_dispatch_actions(s, value));
            let run = spec_run(v0, s, width, n, value);
            &&& forall|i: int| 0 <= i < n ==> (#[trigger] run.1[i]).count == value
            &&& spec_scenario_read(run.0, s, Actor::Coordinator) == value
        }),
{
    reveal_with_fuel(spec_apply_all, 2);
    let v0 = spec_apply_all(v, Actor::Coordinator, spec_pre_dispatch_actions(s, value));
    lemma_outer_global_run(v0, s, width, n, value);
}

/// Under `InnerThreadLocal`, each worker's own post-set read returns the
/// value it set, and nothing leaks out of the workers: the ambient count and
/// the coordinator's view are exactly what they were before the run.
pub proof fn lemma_inner_thread_local_run(
    v: CountsView,
    s: ScenarioSpec,
    width: nat,
    n: nat,
    value: i32,
)
    requires
        s.policy is InnerThreadLocal,
        s.target is Library,
        v.coordinator_local is None,
        width >= 1,
        v.worker_locals.len() == width,
    ensures
        ({
            let run = spec_run(v, s, width, n, value);
            &&& run.1.len() == n
            &&& forall|i: int| 0 <= i < n ==> (#[trigger] run.1[i]).count == value
            &&& run.0.ambient == v.ambient
            &&& run.0.aux == v.aux
            &&& run.0.coordinator_local is None
            &&& run.0.worker_locals.len() == v.worker_locals.len()
            &&& spec_read(run.0, Actor::Coordinator) == v.ambient
        }),
    decreases n,
{
    reveal_with_fuel(spec_apply_all, 2);
    if n > 0 {
        lemma_inner_thread_local_run(v, s, width, (n - 1) as nat, value);
    }
}

/// Under `InnerGlobal` (or `InnerProcessWide` against the library), the
/// workers' repeated writes of the same value through the shared setter are
/// idempotent in the serialized model: every worker reads the value it just
/// wrote, no thread-local state appears, and after at least one unit the
/// coordinator reads that value too.
pub proof fn lemma_inner_reset_run(v: CountsView, s: ScenarioSpec, width: nat, n: nat, value: i32)
    requires
        s.policy is InnerGlobal || (s.policy is InnerProcessWide && s.target is Library),
        no_local_overrides(v),
        width >= 1,
        v.worker_locals.len() == width,
    ensures
        ({
            let run = spec_run(v, s, width, n, value);
            &&& run.1.len() == n
            &&& forall|i: int| 0 <= i < n ==> (#[trigger] run.1[i]).count == value
            &&& no_local_overrides(run.0)
            &&& run.0.worker_locals.len() == width
            &&& n >= 1 ==> spec_scenario_read(run.0, s, Actor::Coordinator) == value
        }),
    decreases n,
{
    reveal_with_fuel(spec_apply_all, 2);
    if n > 0 {
        lemma_inner_reset_run(v, s, width, (n - 1) as nat, value);
    }
}

/// The verdict a real (concurrently produced) record list must satisfy for a
/// drain of `n` units: one record per unit, each unit claimed exactly once.
pub open spec fn spec_covers_units(rs: Seq<ObservationRecord>, n: nat) -> bool {
    &&& rs.len() == n
    &&& forall|i: int| 0 <= i < rs.len() ==> (#[trigger] rs[i]).unit < n
    &&& forall|i: int, j: int|
        #![trigger rs[i], rs[j]]
        0 <= i < rs.len() && 0 <= j < rs.len() && i != j ==> rs[i].unit != rs[j].unit
}

/// Check a record list against `spec_covers_units`: exactly `n` records,
/// every unit identifier below `n`, no unit claimed twice.
pub fn records_cover_units(rs: &Vec<ObservationRecord>, n: usize) -> (r: bool)
    ensures
        r == spec_covers_units(rs@, n as nat),
{
    if rs.len() != n {
        return false;
    }
    let mut seen: Vec<bool> = Vec::new();
    let mut u: usize = 0;
    while u < n
        invariant
            u <= n,
            seen@.len() == u,
            forall|x: int| 0 <= x < u ==> !(#[trigger] seen@[x]),
        decreases n - u,
    {
        seen.push(false);
        u += 1;
    }
    let mut k: usize = 0;
    while k < n
        invariant
            rs@.len() == n,
            seen@.len() == n,
            k <= n,
            forall|x: int|
                0 <= x < n ==> ((#[trigger] seen@[x]) <==> exists|j: int|
                    0 <= j < k && (#[trigger] rs@[j]).unit == x),
            forall|i: int| 0 <= i < k ==> (#[trigger] rs@[i]).unit < n,
            forall|i: int, j: int|
                #![trigger rs@[i], rs@[j]]
                0 <= i < k && 0 <= j < k && i != j ==> rs@[i].unit != rs@[j].unit,
        decreases n - k,
    {
        let unit = rs[k].unit;
        if unit >= n {
            return false;
        }
        if seen[unit] {
            proof {
                let j = choose|j: int| 0 <= j < k && (#[trigger] rs@[j]).unit == unit as int;
                assert(rs@[j].unit == rs@[k as int].unit);
            }
            return false;
        }
        seen.set(unit, true);
        k += 1;
    }
    true
}

/// Every record reports the same thread count `expected`.
pub open spec fn spec_all_counts(rs: Seq<ObservationRecord>, expected: i32) -> bool {
    forall|i: int| 0 <= i < rs.len() ==> (#[trigger] rs[i]).thread_count == expected
}

/// Check that every record reports `expected` as its thread count.
pub fn all_counts_equal(rs: &Vec<ObservationRecord>, expected: i32) -> (r: bool)
    ensures
        r == spec_all_counts(rs@, expected),
{
    let mut k: usize = 0;
    while k < rs.len()
        invariant
            k <= rs@.len(),
            forall|i: int| 0 <= i < k ==> (#[trigger] rs@[i]).thread_count == expected,
        decreases rs@.len() - k,
    {
        if rs[k].thread_count != expected {
            return false;
        }
        k += 1;
    }
    true
}

} // verus!
