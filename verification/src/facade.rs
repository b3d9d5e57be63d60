//! Call descriptors for the two foreign compute routines.  The foreign
//! entry points take raw flags, dimensions and workspace sizes; everything
//! that can be computed and validated about a call before it crosses the
//! boundary is computed and validated here.  Buffer-length and stride
//! consistency is deliberately left unchecked, matching the underlying
//! routines' own contracts: a call with malformed dimensions is undefined
//! behaviour on the foreign side, so the shell refuses to make it unless
//! `dims_positive` held.

use vstd::prelude::*;

verus! {

/// Whether a matrix operand enters the product transposed.
#[derive(Clone, Copy, PartialEq, Eq, Structural, Debug)]
pub enum TransposeMode {
    Transpose,
    NoTranspose,
}

impl TransposeMode {
    /// The one-character flag the foreign routine expects.
    pub fn flag(&self) -> (c: char)
        ensures
            self is Transpose ==> c == 'T',
            self is NoTranspose ==> c == 'N',
    {
        match self {
            TransposeMode::Transpose => 'T',
            TransposeMode::NoTranspose => 'N',
        }
    }
}

/// Whether the eigendecomposition also forms eigenvectors.
#[derive(Clone, Copy, PartialEq, Eq, Structural, Debug)]
pub enum EigenJob {
    VectorsAndValues,
    ValuesOnly,
}

impl EigenJob {
    /// The one-character flag the foreign routine expects.
    pub fn flag(&self) -> (c: char)
        ensures
            self is VectorsAndValues ==> c == 'V',
            self is ValuesOnly ==> c == 'N',
    {
        match self {
            EigenJob::VectorsAndValues => 'V',
            EigenJob::ValuesOnly => 'N',
        }
    }
}

/// Which triangle of the symmetric input is stored.
#[derive(Clone, Copy, PartialEq, Eq, Structural, Debug)]
pub enum MatrixTriangle {
    Upper,
    Lower,
}

impl MatrixTriangle {
    /// The one-character flag the foreign routine expects.
    pub fn flag(&self) -> (c: char)
        ensures
            self is Upper ==> c == 'U',
            self is Lower ==> c == 'L',
    {
        match self {
            MatrixTriangle::Upper => 'U',
            MatrixTriangle::Lower => 'L',
        }
    }
}

/// One dense multiply `C := alpha·op(A)·op(B) + beta·C` over column-major
/// double-precision buffers.  The scaling factors are whole numbers here
/// (the reference runs use 3 and 0); the shell widens them at the boundary.
#[derive(Clone, Copy, PartialEq, Eq, Structural, Debug)]
pub struct MultiplyCall {
    pub transpose_a: TransposeMode,
    pub transpose_b: TransposeMode,
    pub m: i32,
    pub n: i32,
    pub k: i32,
    pub alpha_units: i32,
    pub beta_units: i32,
    pub lda: i32,
    pub ldb: i32,
    pub ldc: i32,
}

/// The cheap validation the facade performs: every dimension and leading
/// dimension positive.  Anything further (buffer length and stride
/// consistency) is the caller's obligation, as it is for the foreign
/// routine itself.
pub open spec fn spec_dims_positive(c: MultiplyCall) -> bool {
    c.m >= 1 && c.n >= 1 && c.k >= 1 && c.lda >= 1 && c.ldb >= 1 && c.ldc >= 1
}

impl MultiplyCall {
    /// The reference call of the harness: `C := alpha·Aᵀ·B + beta·C` with
    /// every dimension and leading dimension equal to `dim`.
    pub fn square(dim: i32, alpha_units: i32, beta_units: i32) -> (c: MultiplyCall)
        requires
            dim >= 1,
        ensures
            c.transpose_a is Transpose,
            c.transpose_b is NoTranspose,
            c.m == dim && c.n == dim && c.k == dim,
            c.lda == dim && c.ldb == dim && c.ldc == dim,
            c.alpha_units == alpha_units,
            c.beta_units == beta_units,
            spec_dims_positive(c),
    {
        MultiplyCall {
            transpose_a: TransposeMode::Transpose,
            transpose_b: TransposeMode::NoTranspose,
            m: dim,
            n: dim,
            k: dim,
            alpha_units,
            beta_units,
            lda: dim,
            ldb: dim,
            ldc: dim,
        }
    }

    /// Validate what is cheap to validate.
    pub fn dims_positive(&self) -> (r: bool)
        ensures
            r == spec_dims_positive(*self),
    {
        self.m >= 1 && self.n >= 1 && self.k >= 1 && self.lda >= 1 && self.ldb >= 1 && self.ldc
            >= 1
    }
}

/// One symmetric eigendecomposition call of order `order`, with the
/// workspace sizes the harness hands to the divide-and-conquer solver:
/// twice the documented minimum for the vectors-and-values job,
/// `lwork = 2·(2n² + 6n + 1)` and `liwork = 2·(5n + 3)`.
#[derive(Clone, Copy, PartialEq, Eq, Structural, Debug)]
pub struct EigenCall {
    pub job: EigenJob,
    pub triangle: MatrixTriangle,
    pub order: i32,
    pub lwork: usize,
    pub liwork: usize,
}

impl EigenCall {
    /// The reference call: eigenvalues and eigenvectors of the upper
    /// triangle, workspaces sized for order `order`.
    pub fn with_vectors(order: i32) -> (c: EigenCall)
        requires
            1 <= order <= 20000,
        ensures
            c.job is VectorsAndValues,
            c.triangle is Upper,
            c.order == order,
            c.lwork == 2 * (2 * (order * order) + 6 * order + 1),
            c.liwork == 2 * (5 * order + 3),
    {
        let n = order as usize;
        proof {
            assert(n * n <= 400_000_000) by (nonlinear_arith)
                requires
                    n <= 20000,
            ;
        }
        let nn = n * n;
        let lwork: usize = 2 * (2 * nn + 6 * n + 1);
        let liwork: usize = 2 * (5 * n + 3);
        EigenCall { job: EigenJob::VectorsAndValues, triangle: MatrixTriangle::Upper, order, lwork, liwork }
    }
}

/// What the eigendecomposition's `info` output signals.  The harness
/// reports it and moves on; it is never escalated into a structured error,
/// matching the native contract.
#[derive(Clone, Copy, PartialEq, Eq, Structural, Debug)]
pub enum EigenOutcome {
    /// The routine succeeded.
    Converged,
    /// Argument `index` (counting from one) had an illegal value.
    IllegalArgument { index: i32 },
    /// The algorithm failed to converge; `detail` is the routine's own
    /// positive diagnostic.
    NoConvergence { detail: i32 },
}

/// Classify the `info` value the foreign eigendecomposition wrote: zero is
/// success, a negative value names the offending argument, a positive value
/// is a convergence failure.
pub fn classify_eigen_info(info: i32) -> (r: EigenOutcome)
    requires
        info > i32::MIN,
    ensures
        (info == 0) <==> r is Converged,
        info < 0 ==> (r matches EigenOutcome::IllegalArgument { index } && index == -info),
        info > 0 ==> (r matches EigenOutcome::NoConvergence { detail } && detail == info),
{
    if info == 0 {
        EigenOutcome::Converged
    } else if info < 0 {
        EigenOutcome::IllegalArgument { index: -info }
    } else {
        EigenOutcome::NoConvergence { detail: info }
    }
}

} // verus!
