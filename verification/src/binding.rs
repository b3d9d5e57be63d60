//! From symbol table to binding.  The loader's queries are answered by the
//! unverified shell as one opaque token per required name (or nothing, where
//! a name did not resolve); this module turns those answers into a complete
//! `DynamicBinding` or a `BindingError` naming the first missing symbol, and
//! guards the process-wide once-only initialization around it.

use vstd::prelude::*;

use crate::errors::BindingError;
use crate::symbols::Backend;
use crate::symbols::SymbolRole;
use crate::symbols::SymbolShape;
use crate::symbols::required_symbols;
use crate::symbols::spec_required_symbols;
use crate::symbols::table_matches;

verus! {

/// One resolved entry point: the exported name it was resolved by, its role,
/// and an opaque token under which the shell keeps the raw callable.
pub struct EntryPoint {
    pub symbol: String,
    pub role: SymbolRole,
    pub token: usize,
}

/// A fully resolved backend: every required entry point of `backend` is
/// present, in table order.  Never constructed partially and never mutated.
pub struct DynamicBinding {
    pub backend: Backend,
    pub entries: Vec<EntryPoint>,
}

/// Every lookup was answered with a token.
pub open spec fn all_resolved(outcomes: Seq<Option<usize>>) -> bool {
    forall|i: int| 0 <= i < outcomes.len() ==> (#[trigger] outcomes[i]) is Some
}

/// The entry list realizes the table `m` entry by entry, holding exactly the
/// tokens that answered the lookups.
pub open spec fn entries_realize(
    entries: Seq<EntryPoint>,
    m: Seq<SymbolShape>,
    outcomes: Seq<Option<usize>>,
) -> bool {
    &&& entries.len() == m.len()
    &&& forall|i: int|
        0 <= i < m.len() ==> {
            &&& (#[trigger] entries[i]).symbol@ == m[i].0
            &&& entries[i].role == m[i].2
            &&& entries[i].token == outcomes[i]->0
        }
}

/// The binding covers the whole required table of its backend: no partial
/// binding is ever observable.
pub open spec fn binding_complete(b: DynamicBinding) -> bool {
    let m = spec_required_symbols(b.backend);
    &&& b.entries@.len() == m.len()
    &&& forall|i: int|
        0 <= i < m.len() ==> {
            &&& (#[trigger] b.entries@[i]).symbol@ == m[i].0
            &&& b.entries@[i].role == m[i].2
        }
}

/// The error names exactly the first required symbol whose lookup failed.
pub open spec fn names_first_missing(
    e: BindingError,
    m: Seq<SymbolShape>,
    outcomes: Seq<Option<usize>>,
) -> bool {
    &&& e matches BindingError::SymbolNotFound { symbol } ==> exists|i: int|
        {
            &&& 0 <= i < outcomes.len()
            &&& (#[trigger] outcomes[i]) is None
            &&& symbol@ == m[i].0
            &&& forall|j: int| 0 <= j < i ==> (#[trigger] outcomes[j]) is Some
        }
    &&& e is SymbolNotFound
}

/// Every object of the backend was opened.
pub open spec fn all_opened(opened: Seq<bool>) -> bool {
    forall|i: int| 0 <= i < opened.len() ==> #[trigger] opened[i]
}

/// Judge the outcome of opening the dynamic objects, atomically: all of
/// them opened, or the error naming the first path that did not.  The shell
/// reports one flag per path, in order.
pub fn check_objects(paths: &Vec<String>, opened: &Vec<bool>) -> (r: Result<(), BindingError>)
    requires
        opened@.len() == paths@.len(),
    ensures
        r is Ok <==> all_opened(opened@),
        r matches Err(e) ==> {
            &&& e matches BindingError::ObjectNotFound { path } ==> exists|i: int|
                {
                    &&& 0 <= i < opened@.len()
                    &&& !(#[trigger] opened@[i])
                    &&& path@ == paths@[i]@
                    &&& forall|j: int| 0 <= j < i ==> #[trigger] opened@[j]
                }
            &&& e is ObjectNotFound
        },
{
    let mut i: usize = 0;
    while i < paths.len()
        invariant
            opened@.len() == paths@.len(),
            i <= paths@.len(),
            forall|j: int| 0 <= j < i ==> #[trigger] opened@[j],
        decreases paths@.len() - i,
    {
        if !opened[i] {
            let e = BindingError::ObjectNotFound { path: paths[i].clone() };
            proof {
                let ii = i as int;
                assert(!opened@[ii]);
            }
            return Err(e);
        }
        i += 1;
    }
    Ok(())
}

/// Resolve a backend's table against the shell's lookup answers, atomically:
/// a binding with every entry point, or the error naming the first missing
/// symbol and no binding at all.
pub fn bind(backend: Backend, outcomes: &Vec<Option<usize>>) -> (r: Result<
    DynamicBinding,
    BindingError,
>)
    requires
        outcomes@.len() == spec_required_symbols(backend).len(),
    ensures
        r is Ok <==> all_resolved(outcomes@),
        r matches Ok(b) ==> {
            &&& b.backend == backend
            &&& binding_complete(b)
            &&& entries_realize(b.entries@, spec_required_symbols(backend), outcomes@)
        },
        r matches Err(e) ==> names_first_missing(e, spec_required_symbols(backend), outcomes@),
{
    let table = required_symbols(backend);
    let ghost m = spec_required_symbols(backend);
    let mut entries: Vec<EntryPoint> = Vec::new();
    let mut i: usize = 0;
    while i < table.len()
        invariant
            m == spec_required_symbols(backend),
            table_matches(table@, m),
            outcomes@.len() == m.len(),
            i <= table@.len(),
            entries@.len() == i,
            forall|k: int| 0 <= k < i ==> (#[trigger] outcomes@[k]) is Some,
            forall|k: int|
                0 <= k < i ==> {
                    &&& (#[trigger] entries@[k]).symbol@ == m[k].0
                    &&& entries@[k].role == m[k].2
                    &&& entries@[k].token == outcomes@[k]->0
                },
        decreases table@.len() - i,
    {
        match outcomes[i] {
            Some(token) => {
                entries.push(
                    EntryPoint { symbol: table[i].name.clone(), role: table[i].role, token },
                );
            },
            None => {
                let missing = table[i].name.clone();
                let e = BindingError::SymbolNotFound { symbol: missing };
                proof {
                    let ii = i as int;
                    assert(outcomes@[ii] is None);
                    assert(names_first_missing(e, spec_required_symbols(backend), outcomes@));
                }
                return Err(e);
            },
        }
        i += 1;
    }
    Ok(DynamicBinding { backend, entries })
}

impl DynamicBinding {
    /// The first entry point that plays `role`, if the backend's table
    /// declares one.
    pub fn entry_for<'a>(&'a self, role: SymbolRole) -> (r: Option<&'a EntryPoint>)
        ensures
            match r {
                Some(e) => exists|i: int|
                    {
                        &&& 0 <= i < self.entries@.len()
                        &&& (#[trigger] self.entries@[i]).role == role
                        &&& *e == self.entries@[i]
                        &&& forall|j: int| 0 <= j < i ==> (#[trigger] self.entries@[j]).role != role
                    },
                None => forall|i: int|
                    0 <= i < self.entries@.len() ==> (#[trigger] self.entries@[i]).role != role,
            },
    {
        let mut i: usize = 0;
        while i < self.entries.len()
            invariant
                i <= self.entries@.len(),
                forall|j: int| 0 <= j < i ==> (#[trigger] self.entries@[j]).role != role,
            decreases self.entries@.len() - i,
        {
            if self.entries[i].role == role {
                return Some(&self.entries[i]);
            }
            i += 1;
        }
        None
    }
}

/// The state of the once-only guard after one guarded call that resolves
/// successfully: an empty cell is filled and the load counter moves once; a
/// filled cell is untouched.
pub open spec fn spec_cell_once(present: bool, loads: nat) -> (bool, nat) {
    if present {
        (present, loads)
    } else {
        (true, loads + 1)
    }
}

/// The state of the guard after `calls` such guarded calls in the order the
/// guard serializes them.
pub open spec fn spec_cell_after(present: bool, loads: nat, calls: nat) -> (bool, nat)
    decreases calls,
{
    if calls == 0 {
        (present, loads)
    } else {
        let s = spec_cell_after(present, loads, (calls - 1) as nat);
        spec_cell_once(s.0, s.1)
    }
}

/// However many callers ask for the binding, the load-and-resolve sequence
/// runs exactly once: starting from an empty cell with an untouched counter,
/// any positive number of serialized guarded calls leaves the counter at one.
pub proof fn lemma_initialization_runs_once(calls: nat)
    requires
        calls >= 1,
    ensures
        spec_cell_after(false, 0, calls) == (true, 1nat),
    decreases calls,
{
    reveal_with_fuel(spec_cell_after, 2);
    if calls > 1 {
        lemma_initialization_runs_once((calls - 1) as nat);
    }
}

/// The process-wide lazy singleton around a `DynamicBinding`, modelled as the
/// critical section that the shell's once-only guard serializes: the first
/// caller pays the load, every later caller sees the cached binding and no
/// second load ever happens.  `loads` counts the load-and-resolve sequences
/// actually run.
pub struct BindingCell {
    pub binding: Option<DynamicBinding>,
    pub loads: u64,
}

impl BindingCell {
    /// A cell that has never initialized anything.
    pub fn empty() -> (c: BindingCell)
        ensures
            c.binding is None,
            c.loads == 0,
    {
        BindingCell { binding: None, loads: 0 }
    }

    /// One serialized guarded call: load and resolve on first use, return the
    /// cached result untouched afterwards.  A resolution failure leaves the
    /// cell empty; the harness treats it as fatal and never retries.
    pub fn get_or_init(&mut self, backend: Backend, outcomes: &Vec<Option<usize>>) -> (r: Result<
        (),
        BindingError,
    >)
        requires
            old(self).loads < u64::MAX,
            old(self).binding is None ==> outcomes@.len() == spec_required_symbols(
                backend,
            ).len(),
        ensures
            old(self).binding is Some ==> *final(self) == *old(self) && r is Ok,
            old(self).binding is None ==> final(self).loads == old(self).loads + 1,
            old(self).binding is None && all_resolved(outcomes@) ==> {
                &&& r is Ok
                &&& final(self).binding matches Some(b) && b.backend == backend
                    && binding_complete(b) && entries_realize(
                    b.entries@,
                    spec_required_symbols(backend),
                    outcomes@,
                )
            },
            old(self).binding is None && !all_resolved(outcomes@) ==> {
                &&& final(self).binding is None
                &&& r matches Err(e) && names_first_missing(
                    e,
                    spec_required_symbols(backend),
                    outcomes@,
                )
            },
            r is Ok ==> (final(self).binding is Some, final(self).loads as nat) == spec_cell_once(
                old(self).binding is Some,
                old(self).loads as nat,
            ),
    {
        if self.binding.is_some() {
            return Ok(());
        }
        self.loads = self.loads + 1;
        match bind(backend, outcomes) {
            Ok(b) => {
                self.binding = Some(b);
                Ok(())
            },
            Err(e) => Err(e),
        }
    }

    /// The cached binding, if initialization has happened.
    pub fn get<'a>(&'a self) -> (r: Option<&'a DynamicBinding>)
        ensures
            match r {
                Some(b) => self.binding matches Some(cached) && *b == cached,
                None => self.binding is None,
            },
    {
        match &self.binding {
            Some(b) => Some(b),
            None => None,
        }
    }
}

} // verus!
