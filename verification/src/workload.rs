//! The workload generator.  A run works on a fixed number of independent
//! work units; each owns two input buffers and one output buffer of exactly
//! `dim * dim` elements.  Content is derived purely from element position —
//! element `j` carries the numerator `j`, which the shell divides by the
//! problem dimension when it widens the buffers for the foreign routine —
//! so runs are reproducible and no two units share anything.

use vstd::prelude::*;

verus! {

/// One independent, schedulable computation: an ordinal identifier and
/// three equally sized numeric buffers.
pub struct WorkUnit {
    pub id: usize,
    pub dim: usize,
    pub a: Vec<u64>,
    pub b: Vec<u64>,
    pub c: Vec<u64>,
}

/// Buffer `v` has exactly `dim * dim` position-derived elements.
pub open spec fn buffer_wf(v: Seq<u64>, dim: int) -> bool {
    &&& v.len() == dim * dim
    &&& forall|j: int| 0 <= j < v.len() ==> (#[trigger] v[j]) == j
}

/// The work unit's invariant: all three buffer lengths are equal to the
/// square of the problem dimension, and every element is its own position.
pub open spec fn unit_wf(u: WorkUnit) -> bool {
    &&& buffer_wf(u.a@, u.dim as int)
    &&& buffer_wf(u.b@, u.dim as int)
    &&& buffer_wf(u.c@, u.dim as int)
}

fn fill(len: usize) -> (v: Vec<u64>)
    ensures
        v@.len() == len,
        forall|j: int| 0 <= j < len ==> (#[trigger] v@[j]) == j,
{
    let mut v: Vec<u64> = Vec::new();
    let mut j: usize = 0;
    while j < len
        invariant
            j <= len,
            v@.len() == j,
            forall|x: int| 0 <= x < j ==> (#[trigger] v@[x]) == x,
        decreases len - j,
    {
        v.push(j as u64);
        j += 1;
    }
    v
}

impl WorkUnit {
    /// One work unit of the given ordinal position and problem dimension.
    pub fn generate(id: usize, dim: usize) -> (u: WorkUnit)
        requires
            dim <= 65535,
        ensures
            unit_wf(u),
            u.id == id,
            u.dim == dim,
    {
        proof {
            assert(dim * dim <= 4_294_836_225) by (nonlinear_arith)
                requires
                    dim <= 65535,
            ;
        }
        let len = dim * dim;
        WorkUnit { id, dim, a: fill(len), b: fill(len), c: fill(len) }
    }
}

/// The whole workload: `units` independent work units of dimension `dim`,
/// identified by their ordinal positions.
pub fn generate_workload(units: usize, dim: usize) -> (w: Vec<WorkUnit>)
    requires
        dim <= 65535,
    ensures
        w@.len() == units,
        forall|i: int|
            0 <= i < units ==> {
                &&& unit_wf(#[trigger] w@[i])
                &&& w@[i].id == i
                &&& w@[i].dim == dim
            },
{
    let mut w: Vec<WorkUnit> = Vec::new();
    let mut i: usize = 0;
    while i < units
        invariant
            dim <= 65535,
            i <= units,
            w@.len() == i,
            forall|x: int|
                0 <= x < i ==> {
                    &&& unit_wf(#[trigger] w@[x])
                    &&& w@[x].id == x
                    &&& w@[x].dim == dim
                },
        decreases units - i,
    {
        w.push(WorkUnit::generate(i, dim));
        i += 1;
    }
    w
}

} // verus!
