use poolbench::facade::EigenCall;
use poolbench::facade::EigenJob;
use poolbench::facade::EigenOutcome;
use poolbench::facade::MatrixTriangle;
use poolbench::facade::MultiplyCall;
use poolbench::facade::TransposeMode;
use poolbench::facade::classify_eigen_info;
use poolbench::workload::WorkUnit;
use poolbench::workload::generate_workload;

#[test]
fn square_reference_multiply_call() {
    let c = MultiplyCall::square(2048, 3, 0);
    assert_eq!(c.transpose_a, TransposeMode::Transpose);
    assert_eq!(c.transpose_b, TransposeMode::NoTranspose);
    assert_eq!(c.transpose_a.flag(), 'T');
    assert_eq!(c.transpose_b.flag(), 'N');
    assert_eq!((c.m, c.n, c.k), (2048, 2048, 2048));
    assert_eq!((c.lda, c.ldb, c.ldc), (2048, 2048, 2048));
    assert_eq!(c.alpha_units, 3);
    assert_eq!(c.beta_units, 0);
    assert!(c.dims_positive());
}

#[test]
fn dimension_validation_is_exact() {
    let mut c = MultiplyCall::square(4, 1, 0);
    assert!(c.dims_positive());
    c.ldc = 0;
    assert!(!c.dims_positive());
}

#[test]
fn eigen_workspace_formulas() {
    let c = EigenCall::with_vectors(2048);
    assert_eq!(c.job, EigenJob::VectorsAndValues);
    assert_eq!(c.triangle, MatrixTriangle::Upper);
    assert_eq!(c.job.flag(), 'V');
    assert_eq!(c.triangle.flag(), 'U');
    assert_eq!(c.order, 2048);
    // lwork = 2 * (2n^2 + 6n + 1), liwork = 2 * (5n + 3) for n = 2048.
    assert_eq!(c.lwork, 16_801_794);
    assert_eq!(c.liwork, 20_486);

    let small = EigenCall::with_vectors(1);
    assert_eq!(small.lwork, 18);
    assert_eq!(small.liwork, 16);
}

#[test]
fn eigen_info_classification() {
    assert_eq!(classify_eigen_info(0), EigenOutcome::Converged);
    assert_eq!(classify_eigen_info(-3), EigenOutcome::IllegalArgument { index: 3 });
    assert_eq!(classify_eigen_info(5), EigenOutcome::NoConvergence { detail: 5 });
}

#[test]
fn workload_buffers_are_square_and_position_derived() {
    let w = generate_workload(3, 4);
    assert_eq!(w.len(), 3);
    for (i, u) in w.iter().enumerate() {
        assert_eq!(u.id, i);
        assert_eq!(u.dim, 4);
        assert_eq!(u.a.len(), 16);
        assert_eq!(u.b.len(), 16);
        assert_eq!(u.c.len(), 16);
        for j in 0..16 {
            assert_eq!(u.a[j], j as u64);
            assert_eq!(u.b[j], j as u64);
            assert_eq!(u.c[j], j as u64);
        }
    }
}

#[test]
fn workload_at_reference_dimension() {
    let u = WorkUnit::generate(0, 1024);
    assert_eq!(u.a.len(), 1024 * 1024);
    assert_eq!(u.b.len(), u.a.len());
    assert_eq!(u.c.len(), u.a.len());
    assert_eq!(u.a[1024 * 1024 - 1], (1024 * 1024 - 1) as u64);
}

#[test]
fn empty_workload_is_allowed() {
    let w = generate_workload(0, 16);
    assert!(w.is_empty());
}
