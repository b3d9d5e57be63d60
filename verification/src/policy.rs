//! Coordination policies.  A policy says when (before dispatch, or inside
//! each task) and at which scope (global, auxiliary runtime, process-wide,
//! thread-local) a worker configures the inner library's thread count.  A
//! scenario fixes a policy together with the runtime it targets and the
//! compute routine it drives; the scheduler consumes the resulting action
//! plans without knowing which policy produced them, so new policies plug in
//! without touching it.

use vstd::prelude::*;

use crate::counts::ControlAction;
use crate::symbols::Backend;
use crate::symbols::SymbolRole;
use crate::symbols::SymbolSpec;
use crate::symbols::SymbolShape;
use crate::symbols::required_symbols;
use crate::symbols::spec_required_symbols;
use crate::symbols::table_matches;

verus! {

/// When and at what scope the inner library's thread count is set relative
/// to outer dispatch.
#[derive(Clone, Copy, PartialEq, Eq, Structural, Debug)]
pub enum CoordinationPolicy {
    /// Set once before any worker starts; workers only read.
    OuterGlobal,
    /// Every worker re-applies the same global setter inside its task.
    InnerGlobal,
    /// Every worker applies the process-wide setter inside its task.
    InnerProcessWide,
    /// Every worker applies the thread-local setter inside its task.
    InnerThreadLocal,
}

/// Which runtime's control surface a scenario drives.
#[derive(Clone, Copy, PartialEq, Eq, Structural, Debug)]
pub enum ControlTarget {
    /// The numerical library's own setters and getter.
    Library,
    /// The auxiliary OpenMP runtime's pair.
    AuxRuntime,
}

/// Which compute routine each work unit runs.
#[derive(Clone, Copy, PartialEq, Eq, Structural, Debug)]
pub enum ComputeRoutine {
    Multiply,
    Eigendecompose,
}

/// One benchmark scenario: a policy, the runtime it targets, and the routine
/// under load.  Immutable for the duration of one run.
#[derive(Clone, Copy, PartialEq, Eq, Structural, Debug)]
pub struct ScenarioSpec {
    pub policy: CoordinationPolicy,
    pub target: ControlTarget,
    pub routine: ComputeRoutine,
}

/// The setter call a scenario's non-thread-local writes go through.
pub open spec fn spec_setter(target: ControlTarget, n: i32) -> ControlAction {
    match target {
        ControlTarget::Library => ControlAction::SetAmbient(n),
        ControlTarget::AuxRuntime => ControlAction::SetAux(n),
    }
}

/// The control calls the coordinator performs once, before any worker
/// starts.
pub open spec fn spec_pre_dispatch_actions(s: ScenarioSpec, n: i32) -> Seq<ControlAction> {
    match s.policy {
        CoordinationPolicy::OuterGlobal => seq![spec_setter(s.target, n)],
        _ => Seq::<ControlAction>::empty(),
    }
}

/// The control calls each worker performs upon entering a task, before the
/// compute call.
pub open spec fn spec_in_task_actions(s: ScenarioSpec, n: i32) -> Seq<ControlAction> {
    match s.policy {
        CoordinationPolicy::OuterGlobal => Seq::<ControlAction>::empty(),
        CoordinationPolicy::InnerGlobal => seq![spec_setter(s.target, n)],
        CoordinationPolicy::InnerProcessWide => seq![ControlAction::SetAmbient(n)],
        CoordinationPolicy::InnerThreadLocal => seq![ControlAction::SetLocal(n)],
    }
}

fn setter(target: ControlTarget, n: i32) -> (a: ControlAction)
    ensures
        a == spec_setter(target, n),
{
    match target {
        ControlTarget::Library => ControlAction::SetAmbient(n),
        ControlTarget::AuxRuntime => ControlAction::SetAux(n),
    }
}

/// The coordinator's pre-dispatch plan, as executable data.
pub fn pre_dispatch_actions(s: ScenarioSpec, n: i32) -> (plan: Vec<ControlAction>)
    ensures
        plan@ == spec_pre_dispatch_actions(s, n),
{
    match s.policy {
        CoordinationPolicy::OuterGlobal => {
            let plan = vec![setter(s.target, n)];
            assert(plan@ =~= spec_pre_dispatch_actions(s, n));
            plan
        },
        _ => {
            let plan: Vec<ControlAction> = Vec::new();
            assert(plan@ =~= spec_pre_dispatch_actions(s, n));
            plan
        },
    }
}

/// A worker's in-task plan, as executable data.
pub fn in_task_actions(s: ScenarioSpec, n: i32) -> (plan: Vec<ControlAction>)
    ensures
        plan@ == spec_in_task_actions(s, n),
{
    let plan = match s.policy {
        CoordinationPolicy::OuterGlobal => Vec::new(),
        CoordinationPolicy::InnerGlobal => vec![setter(s.target, n)],
        CoordinationPolicy::InnerProcessWide => vec![ControlAction::SetAmbient(n)],
        CoordinationPolicy::InnerThreadLocal => vec![ControlAction::SetLocal(n)],
    };
    assert(plan@ =~= spec_in_task_actions(s, n));
    plan
}

/// The role of the setter a scenario writes through.
pub open spec fn spec_setter_role(s: ScenarioSpec) -> SymbolRole {
    match s.policy {
        CoordinationPolicy::InnerThreadLocal => SymbolRole::LocalSet,
        _ => match s.target {
            ControlTarget::Library => SymbolRole::GlobalSet,
            ControlTarget::AuxRuntime => SymbolRole::AuxSet,
        },
    }
}

/// The role of the getter a scenario's reads go through.
pub open spec fn spec_getter_role(s: ScenarioSpec) -> SymbolRole {
    match s.target {
        ControlTarget::Library => SymbolRole::GlobalGet,
        ControlTarget::AuxRuntime => SymbolRole::AuxGet,
    }
}

/// The role of the compute routine a scenario drives.
pub open spec fn spec_routine_role(s: ScenarioSpec) -> SymbolRole {
    match s.routine {
        ComputeRoutine::Multiply => SymbolRole::Multiply,
        ComputeRoutine::Eigendecompose => SymbolRole::Eigendecompose,
    }
}

/// Some entry of the table plays `role`.
pub open spec fn table_has_role(m: Seq<SymbolShape>, role: SymbolRole) -> bool {
    exists|i: int| 0 <= i < m.len() && (#[trigger] m[i]).2 == role
}

/// A backend can run a scenario exactly when its symbol table declares the
/// scenario's routine, setter and getter.
pub open spec fn spec_supported(b: Backend, s: ScenarioSpec) -> bool {
    &&& table_has_role(spec_required_symbols(b), spec_routine_role(s))
    &&& table_has_role(spec_required_symbols(b), spec_setter_role(s))
    &&& table_has_role(spec_required_symbols(b), spec_getter_role(s))
}

proof fn lemma_roles_transfer(t: Seq<SymbolSpec>, m: Seq<SymbolShape>, role: SymbolRole)
    requires
        table_matches(t, m),
    ensures
        (exists|i: int| 0 <= i < t.len() && (#[trigger] t[i]).role == role) <==> table_has_role(
            m,
            role,
        ),
{
    if exists|i: int| 0 <= i < t.len() && (#[trigger] t[i]).role == role {
        let k = choose|i: int| 0 <= i < t.len() && (#[trigger] t[i]).role == role;
        assert(m[k].2 == role);
    }
    if table_has_role(m, role) {
        let k = choose|i: int| 0 <= i < m.len() && (#[trigger] m[i]).2 == role;
        assert(t[k].role == m[k].2);
    }
}

fn has_role(t: &Vec<SymbolSpec>, role: SymbolRole) -> (r: bool)
    ensures
        r == exists|i: int| 0 <= i < t@.len() && (#[trigger] t@[i]).role == role,
{
    let mut i: usize = 0;
    while i < t.len()
        invariant
            i <= t@.len(),
            forall|j: int| 0 <= j < i ==> (#[trigger] t@[j]).role != role,
        decreases t@.len() - i,
    {
        if t[i].role == role {
            return true;
        }
        i += 1;
    }
    false
}

/// Whether `b`'s declared symbol table covers everything `s` needs.  The
/// check is table-driven: no backend is named anywhere in it.
pub fn supported(b: Backend, s: ScenarioSpec) -> (r: bool)
    ensures
        r == spec_supported(b, s),
{
    let t = required_symbols(b);
    proof {
        lemma_roles_transfer(t@, spec_required_symbols(b), spec_routine_role(s));
        lemma_roles_transfer(t@, spec_required_symbols(b), spec_setter_role(s));
        lemma_roles_transfer(t@, spec_required_symbols(b), spec_getter_role(s));
    }
    let routine = routine_role(s);
    let set_role = setter_role(s);
    let get_role = getter_role(s);
    let ok = has_role(&t, routine) && has_role(&t, set_role) && has_role(&t, get_role);
    ok
}

fn routine_role(s: ScenarioSpec) -> (r: SymbolRole)
    ensures
        r == spec_routine_role(s),
{
    match s.routine {
        ComputeRoutine::Multiply => SymbolRole::Multiply,
        ComputeRoutine::Eigendecompose => SymbolRole::Eigendecompose,
    }
}

fn setter_role(s: ScenarioSpec) -> (r: SymbolRole)
    ensures
        r == spec_setter_role(s),
{
    match s.policy {
        CoordinationPolicy::InnerThreadLocal => SymbolRole::LocalSet,
        _ => match s.target {
            ControlTarget::Library => SymbolRole::GlobalSet,
            ControlTarget::AuxRuntime => SymbolRole::AuxSet,
        },
    }
}

fn getter_role(s: ScenarioSpec) -> (r: SymbolRole)
    ensures
        r == spec_getter_role(s),
{
    match s.target {
        ControlTarget::Library => SymbolRole::GlobalGet,
        ControlTarget::AuxRuntime => SymbolRole::AuxGet,
    }
}

} // verus!
