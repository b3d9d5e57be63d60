//! Scenario selection from the command line.  The harness takes exactly one
//! positional argument, a scenario name out of a fixed catalog; anything
//! else is a fatal `UsageError`.  The catalog maps each name to the policy,
//! target and routine it stands for.

use vstd::prelude::*;

use crate::errors::UsageError;
use crate::policy::ComputeRoutine;
use crate::policy::ControlTarget;
use crate::policy::CoordinationPolicy;
use crate::policy::ScenarioSpec;

verus! {

/// One selectable scenario: its command-line name and what it runs.
pub struct ScenarioEntry {
    pub name: String,
    pub scenario: ScenarioSpec,
}

/// The catalog, mathematically: name and scenario of every entry, in order.
pub open spec fn spec_catalog() -> Seq<(Seq<char>, ScenarioSpec)> {
    seq![
        (
            "outer-global-set"@,
            ScenarioSpec {
                policy: CoordinationPolicy::OuterGlobal,
                target: ControlTarget::Library,
                routine: ComputeRoutine::Multiply,
            },
        ),
        (
            "inner-global-set"@,
            ScenarioSpec {
                policy: CoordinationPolicy::InnerGlobal,
                target: ControlTarget::Library,
                routine: ComputeRoutine::Multiply,
            },
        ),
        (
            "outer-aux-set"@,
            ScenarioSpec {
                policy: CoordinationPolicy::OuterGlobal,
                target: ControlTarget::AuxRuntime,
                routine: ComputeRoutine::Multiply,
            },
        ),
        (
            "inner-aux-set"@,
            ScenarioSpec {
                policy: CoordinationPolicy::InnerGlobal,
                target: ControlTarget::AuxRuntime,
                routine: ComputeRoutine::Multiply,
            },
        ),
        (
            "inner-process-wide-set"@,
            ScenarioSpec {
                policy: CoordinationPolicy::InnerProcessWide,
                target: ControlTarget::Library,
                routine: ComputeRoutine::Multiply,
            },
        ),
        (
            "inner-thread-local-set"@,
            ScenarioSpec {
                policy: CoordinationPolicy::InnerThreadLocal,
                target: ControlTarget::Library,
                routine: ComputeRoutine::Multiply,
            },
        ),
        (
            "inner-process-wide-set-eigen"@,
            ScenarioSpec {
                policy: CoordinationPolicy::InnerProcessWide,
                target: ControlTarget::Library,
                routine: ComputeRoutine::Eigendecompose,
            },
        ),
        (
            "inner-thread-local-set-eigen"@,
            ScenarioSpec {
                policy: CoordinationPolicy::InnerThreadLocal,
                target: ControlTarget::Library,
                routine: ComputeRoutine::Eigendecompose,
            },
        ),
    ]
}

/// The executable catalog realizes the mathematical one entry by entry.
pub open spec fn catalog_matches(c: Seq<ScenarioEntry>, m: Seq<(Seq<char>, ScenarioSpec)>) -> bool {
    &&& c.len() == m.len()
    &&& forall|i: int|
        0 <= i < c.len() ==> {
            &&& (#[trigger] c[i]).name@ == m[i].0
            &&& c[i].scenario == m[i].1
        }
}

fn catalog_entry(name: &str, scenario: ScenarioSpec) -> (e: ScenarioEntry)
    ensures
        e.name@ == name@,
        e.scenario == scenario,
{
    ScenarioEntry { name: String::from_str(name), scenario }
}

/// The selectable scenarios, as executable data.
pub fn scenario_catalog() -> (c: Vec<ScenarioEntry>)
    ensures
        catalog_matches(c@, spec_catalog()),
{
    let c = vec![
        catalog_entry(
            "outer-global-set",
            ScenarioSpec {
                policy: CoordinationPolicy::OuterGlobal,
                target: ControlTarget::Library,
                routine: ComputeRoutine::Multiply,
            },
        ),
        catalog_entry(
            "inner-global-set",
            ScenarioSpec {
                policy: CoordinationPolicy::InnerGlobal,
                target: ControlTarget::Library,
                routine: ComputeRoutine::Multiply,
            },
        ),
        catalog_entry(
            "outer-aux-set",
            ScenarioSpec {
                policy: CoordinationPolicy::OuterGlobal,
                target: ControlTarget::AuxRuntime,
                routine: ComputeRoutine::Multiply,
            },
        ),
        catalog_entry(
            "inner-aux-set",
            ScenarioSpec {
                policy: CoordinationPolicy::InnerGlobal,
                target: ControlTarget::AuxRuntime,
                routine: ComputeRoutine::Multiply,
            },
        ),
        catalog_entry(
            "inner-process-wide-set",
            ScenarioSpec {
                policy: CoordinationPolicy::InnerProcessWide,
                target: ControlTarget::Library,
                routine: ComputeRoutine::Multiply,
            },
        ),
        catalog_entry(
            "inner-thread-local-set",
            ScenarioSpec {
                policy: CoordinationPolicy::InnerThreadLocal,
                target: ControlTarget::Library,
                routine: ComputeRoutine::Multiply,
            },
        ),
        catalog_entry(
            "inner-process-wide-set-eigen",
            ScenarioSpec {
                policy: CoordinationPolicy::InnerProcessWide,
                target: ControlTarget::Library,
                routine: ComputeRoutine::Eigendecompose,
            },
        ),
        catalog_entry(
            "inner-thread-local-set-eigen",
            ScenarioSpec {
                policy: CoordinationPolicy::InnerThreadLocal,
                target: ControlTarget::Library,
                routine: ComputeRoutine::Eigendecompose,
            },
        ),
    ];
    c
}

/// Select a scenario from the positional arguments (the program name
/// excluded).  Exactly one argument is accepted; it must name a catalog
/// entry.  Every rejection is precise: a wrong count reports the count, an
/// unknown name reports the name.
pub fn parse_scenario(args: &Vec<String>) -> (r: Result<ScenarioSpec, UsageError>)
    ensures
        args@.len() != 1 ==> (r matches Err(UsageError::WrongArgumentCount { given }) && given
            == args@.len()),
        args@.len() == 1 ==> match r {
            Ok(s) => exists|i: int|
                {
                    &&& 0 <= i < spec_catalog().len()
                    &&& (#[trigger] spec_catalog()[i]).0 == args@[0]@
                    &&& s == spec_catalog()[i].1
                },
            Err(e) => {
                &&& forall|i: int|
                    0 <= i < spec_catalog().len() ==> (#[trigger] spec_catalog()[i]).0
                        != args@[0]@
                &&& e matches UsageError::UnknownScenario { name } && name@ == args@[0]@
            },
        },
{
    if args.len() != 1 {
        return Err(UsageError::WrongArgumentCount { given: args.len() });
    }
    let catalog = scenario_catalog();
    let mut i: usize = 0;
    while i < catalog.len()
        invariant
            catalog_matches(catalog@, spec_catalog()),
            i <= catalog@.len(),
            args@.len() == 1,
            forall|j: int| 0 <= j < i ==> (#[trigger] spec_catalog()[j]).0 != args@[0]@,
        decreases catalog@.len() - i,
    {
        if catalog[i].name == args[0] {
            proof {
                assert(spec_catalog()[i as int].0 == args@[0]@);
            }
            return Ok(catalog[i].scenario);
        }
        i += 1;
    }
    Err(UsageError::UnknownScenario { name: args[0].clone() })
}

} // verus!
