use poolbench::binding::BindingCell;
use poolbench::binding::bind;
use poolbench::errors::BindingError;
use poolbench::symbols::Backend;
use poolbench::symbols::SymbolRole;
use poolbench::symbols::object_paths;
use poolbench::symbols::required_symbols;

#[test]
fn resolves_complete_binding() {
    let table = required_symbols(Backend::Mkl);
    assert_eq!(table.len(), 5);
    let outcomes: Vec<Option<usize>> = (0..table.len()).map(|i| Some(100 + i)).collect();
    let b = bind(Backend::Mkl, &outcomes).unwrap_or_else(|_| panic!("binding must succeed"));
    assert_eq!(b.entries.len(), 5);
    for (i, e) in b.entries.iter().enumerate() {
        assert_eq!(e.symbol, table[i].name);
        assert_eq!(e.role, table[i].role);
        assert_eq!(e.token, 100 + i);
    }
}

#[test]
fn misnamed_symbol_yields_error_and_no_binding() {
    // The second required name of the MKL table fails to resolve, as it
    // would if it were misspelled in the table or absent from the object.
    let outcomes: Vec<Option<usize>> = vec![Some(1), None, Some(3), Some(4), Some(5)];
    match bind(Backend::Mkl, &outcomes) {
        Ok(_) => panic!("no binding may come out of a failed resolution"),
        Err(e) => match e {
            BindingError::SymbolNotFound { ref symbol } => {
                assert_eq!(symbol, "MKL_Get_Max_Threads");
                assert_eq!(e.describe(), "symbol not found: MKL_Get_Max_Threads");
            },
            BindingError::ObjectNotFound { .. } => panic!("wrong error kind"),
        },
    }
}

#[test]
fn error_names_first_missing_symbol() {
    let outcomes: Vec<Option<usize>> = vec![Some(1), None, None, Some(4), Some(5)];
    match bind(Backend::Mkl, &outcomes) {
        Err(BindingError::SymbolNotFound { symbol }) => {
            assert_eq!(symbol, "MKL_Get_Max_Threads");
        },
        _ => panic!("expected a symbol-not-found error"),
    }
}

#[test]
fn cell_initializes_exactly_once() {
    let table = required_symbols(Backend::Blis);
    let outcomes: Vec<Option<usize>> = (0..table.len()).map(|i| Some(i)).collect();
    let mut cell = BindingCell::empty();
    assert_eq!(cell.loads, 0);
    assert!(cell.get().is_none());
    assert!(cell.get_or_init(Backend::Blis, &outcomes).is_ok());
    assert_eq!(cell.loads, 1);
    assert!(cell.get().is_some());
    // Later callers receive the cached binding; the load counter stays at one.
    assert!(cell.get_or_init(Backend::Blis, &outcomes).is_ok());
    assert!(cell.get_or_init(Backend::Blis, &outcomes).is_ok());
    assert_eq!(cell.loads, 1);
    let b = cell.get().unwrap();
    assert_eq!(b.entries.len(), table.len());
}

#[test]
fn failed_initialization_leaves_cell_empty() {
    let outcomes: Vec<Option<usize>> = vec![None, Some(1), Some(2), Some(3), Some(4)];
    let mut cell = BindingCell::empty();
    assert!(cell.get_or_init(Backend::Blis, &outcomes).is_err());
    assert!(cell.get().is_none());
    assert_eq!(cell.loads, 1);
}

#[test]
fn entry_lookup_by_role() {
    let table = required_symbols(Backend::OpenBlas);
    let outcomes: Vec<Option<usize>> = (0..table.len()).map(|i| Some(i * 10)).collect();
    let b = bind(Backend::OpenBlas, &outcomes).unwrap_or_else(|_| panic!("binding must succeed"));
    let e = b.entry_for(SymbolRole::LocalSet).expect("the OpenBLAS table declares a local set");
    assert_eq!(e.symbol, "openblas_set_num_threads_local");
    assert_eq!(e.token, 30);
    assert!(b.entry_for(SymbolRole::Eigendecompose).is_none());
}

#[test]
fn tables_and_paths_per_backend() {
    let blis = required_symbols(Backend::Blis);
    let names: Vec<&str> = blis.iter().map(|s| s.name.as_str()).collect();
    assert_eq!(
        names,
        vec![
            "dgemm_",
            "bli_thread_set_num_threads",
            "bli_thread_get_num_threads",
            "omp_get_max_threads",
            "omp_set_num_threads",
        ]
    );
    assert_eq!(blis[3].object, 1);
    assert_eq!(blis[0].role, SymbolRole::Multiply);

    let kml = required_symbols(Backend::Kml);
    assert_eq!(kml.len(), 8);
    assert_eq!(kml[7].name, "dsyevd_");
    assert_eq!(kml[6].role, SymbolRole::LocalSet);

    let paths = object_paths(Backend::Blis);
    assert_eq!(paths.len(), 2);
    assert_eq!(paths[0], "libblis.so");
    assert_eq!(paths[1], "libgomp.so");
    assert_eq!(object_paths(Backend::Kml).len(), 1);
    assert_eq!(object_paths(Backend::Mkl)[0], "libmkl_rt.so");
    assert_eq!(object_paths(Backend::OpenBlas)[0], "libopenblas.so");
}

#[test]
fn object_check_names_first_failed_path() {
    let paths = object_paths(Backend::Blis);
    assert!(poolbench::binding::check_objects(&paths, &vec![true, true]).is_ok());
    match poolbench::binding::check_objects(&paths, &vec![true, false]) {
        Err(BindingError::ObjectNotFound { path }) => assert_eq!(path, "libgomp.so"),
        _ => panic!("a failed open must be refused"),
    }
    match poolbench::binding::check_objects(&paths, &vec![false, false]) {
        Err(BindingError::ObjectNotFound { path }) => assert_eq!(path, "libblis.so"),
        _ => panic!("a failed open must be refused"),
    }
}

#[test]
fn object_not_found_message_names_path() {
    let e = BindingError::ObjectNotFound { path: String::from("libblis.so") };
    assert_eq!(e.describe(), "dynamic object not found: libblis.so");
}
