//! Declarative symbol tables.  Each backend is described by the paths of the
//! dynamic objects it lives in and by a fixed list of required entry points,
//! each with the index of the object that exports it and the logical role it
//! plays.  The loader consumes these tables uniformly; no backend-specific
//! branching exists anywhere else.

use vstd::prelude::*;

verus! {

/// One of the four vendored numerical libraries the harness can drive.
/// They differ only in which dynamic objects are opened and which symbol
/// names are bound; the threading-control surface of each is captured by the
/// roles in its table.
#[derive(Clone, Copy, PartialEq, Eq, Structural, Debug)]
pub enum Backend {
    /// Global thread-count set/get, plus a separate OpenMP runtime pair.
    Blis,
    /// Global pair, a process-wide pair and a thread-local pair.
    Kml,
    /// Global set/get and an asymmetric thread-local set.
    Mkl,
    /// Global set/get, a thread-local set, a configuration query, and a
    /// separate OpenMP runtime pair.
    OpenBlas,
}

/// The logical operation a resolved entry point stands for.
#[derive(Clone, Copy, PartialEq, Eq, Structural, Debug)]
pub enum SymbolRole {
    /// Dense matrix multiply.
    Multiply,
    /// Symmetric eigendecomposition.
    Eigendecompose,
    /// Read the library's ambient thread count.
    GlobalGet,
    /// Set the library's ambient thread count for all future calls.
    GlobalSet,
    /// Read the thread count of the auxiliary OpenMP runtime.
    AuxGet,
    /// Set the thread count of the auxiliary OpenMP runtime.
    AuxSet,
    /// Read the process-wide thread count of a split-scope backend.
    ProcessGet,
    /// Set the process-wide thread count of a split-scope backend.
    ProcessSet,
    /// Read the calling thread's own thread count.
    LocalGet,
    /// Set the thread count of the calling thread only.
    LocalSet,
    /// Query the build configuration string.
    ConfigQuery,
}

/// One required entry point: its exact exported name, the index (into the
/// backend's object-path list) of the object that must export it, and its
/// role.
pub struct SymbolSpec {
    pub name: String,
    pub object: usize,
    pub role: SymbolRole,
}

/// The mathematical shape of a symbol table: name, object index, role.
pub type SymbolShape = (Seq<char>, int, SymbolRole);

/// The default paths of the dynamic objects a backend is loaded from, in the
/// order the table's object indices refer to them.
pub open spec fn spec_object_paths(b: Backend) -> Seq<Seq<char>> {
    match b {
        Backend::Blis => seq!["libblis.so"@, "libgomp.so"@],
        Backend::Kml => seq!["libklapack_full.so"@],
        Backend::Mkl => seq!["libmkl_rt.so"@],
        Backend::OpenBlas => seq!["libopenblas.so"@, "libgomp.so"@],
    }
}

/// The fixed list of required entry points of a backend.
pub open spec fn spec_required_symbols(b: Backend) -> Seq<SymbolShape> {
    match b {
        Backend::Blis => seq![
            ("dgemm_"@, 0int, SymbolRole::Multiply),
            ("bli_thread_set_num_threads"@, 0int, SymbolRole::GlobalSet),
            ("bli_thread_get_num_threads"@, 0int, SymbolRole::GlobalGet),
            ("omp_get_max_threads"@, 1int, SymbolRole::AuxGet),
            ("omp_set_num_threads"@, 1int, SymbolRole::AuxSet),
        ],
        Backend::Kml => seq![
            ("dgemm_"@, 0int, SymbolRole::Multiply),
            ("KmlGetMaxThreads"@, 0int, SymbolRole::GlobalGet),
            ("KmlSetNumThreads"@, 0int, SymbolRole::GlobalSet),
            ("BlasGetNumThreads"@, 0int, SymbolRole::ProcessGet),
            ("BlasSetNumThreads"@, 0int, SymbolRole::ProcessSet),
            ("BlasGetNumThreadsLocal"@, 0int, SymbolRole::LocalGet),
            ("BlasSetNumThreadsLocal"@, 0int, SymbolRole::LocalSet),
            ("dsyevd_"@, 0int, SymbolRole::Eigendecompose),
        ],
        Backend::Mkl => seq![
            ("dgemm_"@, 0int, SymbolRole::Multiply),
            ("MKL_Get_Max_Threads"@, 0int, SymbolRole::GlobalGet),
            ("MKL_Set_Num_Threads"@, 0int, SymbolRole::GlobalSet),
            ("MKL_Set_Num_Threads_Local"@, 0int, SymbolRole::LocalSet),
            ("dsyevd_"@, 0int, SymbolRole::Eigendecompose),
        ],
        Backend::OpenBlas => seq![
            ("dgemm_"@, 0int, SymbolRole::Multiply),
            ("openblas_set_num_threads"@, 0int, SymbolRole::GlobalSet),
            ("openblas_get_num_threads"@, 0int, SymbolRole::GlobalGet),
            ("openblas_set_num_threads_local"@, 0int, SymbolRole::LocalSet),
            ("openblas_get_config"@, 0int, SymbolRole::ConfigQuery),
            ("omp_get_max_threads"@, 1int, SymbolRole::AuxGet),
            ("omp_set_num_threads"@, 1int, SymbolRole::AuxSet),
        ],
    }
}

/// The executable table `t` realizes the mathematical table `m` entry by
/// entry.
pub open spec fn table_matches(t: Seq<SymbolSpec>, m: Seq<SymbolShape>) -> bool {
    &&& t.len() == m.len()
    &&& forall|i: int|
        0 <= i < t.len() ==> {
            &&& (#[trigger] t[i]).name@ == m[i].0
            &&& t[i].object == m[i].1
            &&& t[i].role == m[i].2
        }
}

/// The executable path list `p` realizes the mathematical list `m`.
pub open spec fn paths_match(p: Seq<String>, m: Seq<Seq<char>>) -> bool {
    &&& p.len() == m.len()
    &&& forall|i: int| 0 <= i < p.len() ==> (#[trigger] p[i])@ == m[i]
}

fn entry(name: &str, object: usize, role: SymbolRole) -> (e: SymbolSpec)
    ensures
        e.name@ == name@,
        e.object == object,
        e.role == role,
{
    SymbolSpec { name: String::from_str(name), object, role }
}

/// The required entry points of `b`, as executable data for the loader.
pub fn required_symbols(b: Backend) -> (t: Vec<SymbolSpec>)
    ensures
        table_matches(t@, spec_required_symbols(b)),
{
    match b {
        Backend::Blis => {
            let t = vec![
                entry("dgemm_", 0, SymbolRole::Multiply),
                entry("bli_thread_set_num_threads", 0, SymbolRole::GlobalSet),
                entry("bli_thread_get_num_threads", 0, SymbolRole::GlobalGet),
                entry("omp_get_max_threads", 1, SymbolRole::AuxGet),
                entry("omp_set_num_threads", 1, SymbolRole::AuxSet),
            ];
            t
        },
        Backend::Kml => {
            let t = vec![
                entry("dgemm_", 0, SymbolRole::Multiply),
                entry("KmlGetMaxThreads", 0, SymbolRole::GlobalGet),
                entry("KmlSetNumThreads", 0, SymbolRole::GlobalSet),
                entry("BlasGetNumThreads", 0, SymbolRole::ProcessGet),
                entry("BlasSetNumThreads", 0, SymbolRole::ProcessSet),
                entry("BlasGetNumThreadsLocal", 0, SymbolRole::LocalGet),
                entry("BlasSetNumThreadsLocal", 0, SymbolRole::LocalSet),
                entry("dsyevd_", 0, SymbolRole::Eigendecompose),
            ];
            t
        },
        Backend::Mkl => {
            let t = vec![
                entry("dgemm_", 0, SymbolRole::Multiply),
                entry("MKL_Get_Max_Threads", 0, SymbolRole::GlobalGet),
                entry("MKL_Set_Num_Threads", 0, SymbolRole::GlobalSet),
                entry("MKL_Set_Num_Threads_Local", 0, SymbolRole::LocalSet),
                entry("dsyevd_", 0, SymbolRole::Eigendecompose),
            ];
            t
        },
        Backend::OpenBlas => {
            let t = vec![
                entry("dgemm_", 0, SymbolRole::Multiply),
                entry("openblas_set_num_threads", 0, SymbolRole::GlobalSet),
                entry("openblas_get_num_threads", 0, SymbolRole::GlobalGet),
                entry("openblas_set_num_threads_local", 0, SymbolRole::LocalSet),
                entry("openblas_get_config", 0, SymbolRole::ConfigQuery),
                entry("omp_get_max_threads", 1, SymbolRole::AuxGet),
                entry("omp_set_num_threads", 1, SymbolRole::AuxSet),
            ];
            t
        },
    }
}

/// The default object paths of `b`; a caller may substitute its own paths of
/// the same arity.
pub fn object_paths(b: Backend) -> (p: Vec<String>)
    ensures
        paths_match(p@, spec_object_paths(b)),
{
    match b {
        Backend::Blis => {
            vec![String::from_str("libblis.so"), String::from_str("libgomp.so")]
        },
        Backend::Kml => {
            vec![String::from_str("libklapack_full.so")]
        },
        Backend::Mkl => {
            vec![String::from_str("libmkl_rt.so")]
        },
        Backend::OpenBlas => {
            vec![String::from_str("libopenblas.so"), String::from_str("libgomp.so")]
        },
    }
}

} // verus!
