use poolbench::cli::parse_scenario;
use poolbench::cli::scenario_catalog;
use poolbench::errors::UsageError;
use poolbench::policy::ComputeRoutine;
use poolbench::policy::ControlTarget;
use poolbench::policy::CoordinationPolicy;
use poolbench::policy::ScenarioSpec;
use poolbench::policy::supported;
use poolbench::symbols::Backend;

#[test]
fn zero_arguments_is_a_usage_error() {
    let args: Vec<String> = vec![];
    match parse_scenario(&args) {
        Err(UsageError::WrongArgumentCount { given }) => assert_eq!(given, 0),
        _ => panic!("an empty command line must be refused"),
    }
}

#[test]
fn two_arguments_is_a_usage_error() {
    let args = vec!["outer-global-set".to_string(), "inner-global-set".to_string()];
    match parse_scenario(&args) {
        Err(UsageError::WrongArgumentCount { given }) => assert_eq!(given, 2),
        _ => panic!("two positional arguments must be refused"),
    }
}

#[test]
fn unknown_scenario_is_named_in_the_error() {
    let args = vec!["outer-global".to_string()];
    match parse_scenario(&args) {
        Err(e @ UsageError::UnknownScenario { .. }) => {
            assert_eq!(e.describe(), "unknown scenario: outer-global");
        },
        _ => panic!("an unknown name must be refused"),
    }
}

#[test]
fn wrong_count_message() {
    let e = UsageError::WrongArgumentCount { given: 3 };
    assert_eq!(e.describe(), "expected exactly one scenario name");
}

#[test]
fn every_catalog_name_parses_to_its_scenario() {
    let catalog = scenario_catalog();
    assert_eq!(catalog.len(), 8);
    for entry in &catalog {
        let args = vec![entry.name.clone()];
        match parse_scenario(&args) {
            Ok(s) => assert_eq!(s, entry.scenario),
            Err(_) => panic!("catalog names must parse"),
        }
    }
}

#[test]
fn known_names_map_to_expected_policies() {
    let cases: Vec<(&str, CoordinationPolicy, ControlTarget, ComputeRoutine)> = vec![
        (
            "outer-global-set",
            CoordinationPolicy::OuterGlobal,
            ControlTarget::Library,
            ComputeRoutine::Multiply,
        ),
        (
            "inner-aux-set",
            CoordinationPolicy::InnerGlobal,
            ControlTarget::AuxRuntime,
            ComputeRoutine::Multiply,
        ),
        (
            "inner-thread-local-set",
            CoordinationPolicy::InnerThreadLocal,
            ControlTarget::Library,
            ComputeRoutine::Multiply,
        ),
        (
            "inner-process-wide-set-eigen",
            CoordinationPolicy::InnerProcessWide,
            ControlTarget::Library,
            ComputeRoutine::Eigendecompose,
        ),
    ];
    for (name, policy, target, routine) in cases {
        let args = vec![name.to_string()];
        match parse_scenario(&args) {
            Ok(s) => {
                assert_eq!(s.policy, policy);
                assert_eq!(s.target, target);
                assert_eq!(s.routine, routine);
            },
            Err(_) => panic!("known name must parse"),
        }
    }
}

fn spec(policy: CoordinationPolicy, target: ControlTarget, routine: ComputeRoutine) -> ScenarioSpec {
    ScenarioSpec { policy, target, routine }
}

#[test]
fn support_follows_the_symbol_tables() {
    let global = spec(
        CoordinationPolicy::OuterGlobal,
        ControlTarget::Library,
        ComputeRoutine::Multiply,
    );
    let aux = spec(
        CoordinationPolicy::OuterGlobal,
        ControlTarget::AuxRuntime,
        ComputeRoutine::Multiply,
    );
    let local = spec(
        CoordinationPolicy::InnerThreadLocal,
        ControlTarget::Library,
        ComputeRoutine::Multiply,
    );
    let eigen_local = spec(
        CoordinationPolicy::InnerThreadLocal,
        ControlTarget::Library,
        ComputeRoutine::Eigendecompose,
    );

    assert!(supported(Backend::Blis, global));
    assert!(supported(Backend::Blis, aux));
    assert!(!supported(Backend::Blis, local));
    assert!(!supported(Backend::Blis, eigen_local));

    assert!(supported(Backend::Kml, global));
    assert!(!supported(Backend::Kml, aux));
    assert!(supported(Backend::Kml, local));
    assert!(supported(Backend::Kml, eigen_local));

    assert!(supported(Backend::Mkl, local));
    assert!(supported(Backend::Mkl, eigen_local));
    assert!(!supported(Backend::Mkl, aux));

    assert!(supported(Backend::OpenBlas, global));
    assert!(supported(Backend::OpenBlas, aux));
    assert!(supported(Backend::OpenBlas, local));
    assert!(!supported(Backend::OpenBlas, eigen_local));
}
