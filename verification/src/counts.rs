//! The thread-count state that the coordination protocol manipulates.  The
//! inner library's control surface is modelled as one ambient (process-wide)
//! count, one count of the auxiliary runtime, and one optional thread-local
//! override per actor; a read through the library's getter reflects the
//! narrower thread-local scope when both have been set.  The model makes the
//! documented scope of each setter explicit, so the harness can compare it
//! against observed behaviour.

use vstd::prelude::*;

verus! {

/// Who performs a control call: the coordinating thread that dispatches the
/// run, or one of the pool's workers.
#[derive(Clone, Copy, PartialEq, Eq, Structural, Debug)]
pub enum Actor {
    Coordinator,
    Worker(usize),
}

/// One thread-count control call, at the scope its setter documents.
#[derive(Clone, Copy, PartialEq, Eq, Structural, Debug)]
pub enum ControlAction {
    /// Set the library's ambient count, for every thread and future call.
    SetAmbient(i32),
    /// Set the auxiliary runtime's count.
    SetAux(i32),
    /// Set the count of the calling thread only.
    SetLocal(i32),
}

/// The mathematical state of the control surface.
pub struct CountsView {
    pub ambient: i32,
    pub aux: i32,
    pub worker_locals: Seq<Option<i32>>,
    pub coordinator_local: Option<i32>,
}

/// The executable counterpart: one slot per worker of the pool.
pub struct ThreadCounts {
    pub ambient: i32,
    pub aux: i32,
    pub worker_locals: Vec<Option<i32>>,
    pub coordinator_local: Option<i32>,
}

impl View for ThreadCounts {
    type V = CountsView;

    open spec fn view(&self) -> CountsView {
        CountsView {
            ambient: self.ambient,
            aux: self.aux,
            worker_locals: self.worker_locals@,
            coordinator_local: self.coordinator_local,
        }
    }
}

/// The actor exists in this state: a worker index lies inside the pool.
pub open spec fn actor_valid(v: CountsView, a: Actor) -> bool {
    a matches Actor::Worker(w) ==> w < v.worker_locals.len()
}

/// No thread-local override is in effect anywhere: the state a process is in
/// before any scoped setter has run.
pub open spec fn no_local_overrides(v: CountsView) -> bool {
    &&& v.coordinator_local is None
    &&& forall|w: int| 0 <= w < v.worker_locals.len() ==> (#[trigger] v.worker_locals[w]) is None
}

/// The state after `a` performs `action`: each setter writes exactly the
/// scope it documents and nothing else.
pub open spec fn spec_apply(v: CountsView, a: Actor, action: ControlAction) -> CountsView {
    match action {
        ControlAction::SetAmbient(n) => CountsView { ambient: n, ..v },
        ControlAction::SetAux(n) => CountsView { aux: n, ..v },
        ControlAction::SetLocal(n) => match a {
            Actor::Coordinator => CountsView { coordinator_local: Some(n), ..v },
            Actor::Worker(w) => CountsView {
                worker_locals: v.worker_locals.update(w as int, Some(n)),
                ..v
            },
        },
    }
}

/// The state after `a` performs a whole list of actions, in order.
pub open spec fn spec_apply_all(v: CountsView, a: Actor, actions: Seq<ControlAction>) -> CountsView
    decreases actions.len(),
{
    if actions.len() == 0 {
        v
    } else {
        spec_apply_all(spec_apply(v, a, actions[0]), a, actions.drop_first())
    }
}

/// What the library's getter reports to `a`: the actor's own thread-local
/// override when one is set, the ambient count otherwise.
pub open spec fn spec_read(v: CountsView, a: Actor) -> i32 {
    match a {
        Actor::Coordinator => match v.coordinator_local {
            Some(n) => n,
            None => v.ambient,
        },
        Actor::Worker(w) => match v.worker_locals[w as int] {
            Some(n) => n,
            None => v.ambient,
        },
    }
}

impl ThreadCounts {
    /// The control surface of a freshly started process: both runtimes at
    /// their initial counts, no thread-local override anywhere.
    pub fn new(width: usize, ambient: i32, aux: i32) -> (c: ThreadCounts)
        ensures
            c@.ambient == ambient,
            c@.aux == aux,
            c@.worker_locals.len() == width,
            no_local_overrides(c@),
    {
        let mut worker_locals: Vec<Option<i32>> = Vec::new();
        let mut i: usize = 0;
        while i < width
            invariant
                i <= width,
                worker_locals@.len() == i,
                forall|w: int| 0 <= w < i ==> (#[trigger] worker_locals@[w]) is None,
            decreases width - i,
        {
            worker_locals.push(None);
            i += 1;
        }
        ThreadCounts { ambient, aux, worker_locals, coordinator_local: None }
    }

    /// The number of worker slots.
    pub fn width(&self) -> (w: usize)
        ensures
            w == self@.worker_locals.len(),
    {
        self.worker_locals.len()
    }

    /// Perform one control call as `a`.
    pub fn apply(&mut self, a: Actor, action: ControlAction)
        requires
            actor_valid(old(self)@, a),
        ensures
            final(self)@ == spec_apply(old(self)@, a, action),
    {
        match action {
            ControlAction::SetAmbient(n) => {
                self.ambient = n;
            },
            ControlAction::SetAux(n) => {
                self.aux = n;
            },
            ControlAction::SetLocal(n) => match a {
                Actor::Coordinator => {
                    self.coordinator_local = Some(n);
                },
                Actor::Worker(w) => {
                    self.worker_locals.set(w, Some(n));
                },
            },
        }
        assert(final(self)@ =~= spec_apply(old(self)@, a, action)) by {
            assert(final(self)@.worker_locals =~= spec_apply(
                old(self)@,
                a,
                action,
            ).worker_locals);
        }
    }

    /// Read the count as `a` sees it through the library's getter.
    pub fn read(&self, a: Actor) -> (n: i32)
        requires
            actor_valid(self@, a),
        ensures
            n == spec_read(self@, a),
    {
        match a {
            Actor::Coordinator => match self.coordinator_local {
                Some(n) => n,
                None => self.ambient,
            },
            Actor::Worker(w) => match self.worker_locals[w] {
                Some(n) => n,
                None => self.ambient,
            },
        }
    }

    /// Read the auxiliary runtime's count; it knows no thread-local scope.
    pub fn read_aux(&self) -> (n: i32)
        ensures
            n == self@.aux,
    {
        self.aux
    }

    /// Whether the library's ambient count and the auxiliary runtime's
    /// count agree.  For a backend that delegates its parallel fan-out to a
    /// separate runtime the two pairs should stay consistent, but nothing
    /// guarantees it; the harness reports this instead of assuming it.
    pub fn pairs_consistent(&self) -> (r: bool)
        ensures
            r == (self@.ambient == self@.aux),
    {
        self.ambient == self.aux
    }
}

/// The state after a list of control calls, each with its own actor, in
/// order.
pub open spec fn spec_apply_steps(v: CountsView, steps: Seq<(Actor, ControlAction)>) -> CountsView
    decreases steps.len(),
{
    if steps.len() == 0 {
        v
    } else {
        spec_apply_steps(spec_apply(v, steps[0].0, steps[0].1), steps.drop_first())
    }
}

/// No sequence of thread-local sets performed by other actors changes what
/// `a` reads, nor the ambient count: thread-local writes never leak across
/// threads, however many of them interleave.
pub proof fn lemma_no_cross_actor_leak(
    v: CountsView,
    steps: Seq<(Actor, ControlAction)>,
    a: Actor,
)
    requires
        actor_valid(v, a),
        forall|i: int|
            0 <= i < steps.len() ==> {
                &&& (#[trigger] steps[i]).1 is SetLocal
                &&& steps[i].0 != a
                &&& actor_valid(v, steps[i].0)
            },
    ensures
        spec_read(spec_apply_steps(v, steps), a) == spec_read(v, a),
        spec_apply_steps(v, steps).worker_locals.len() == v.worker_locals.len(),
        spec_apply_steps(v, steps).ambient == v.ambient,
    decreases steps.len(),
{
    if steps.len() > 0 {
        let v1 = spec_apply(v, steps[0].0, steps[0].1);
        assert(forall|i: int|
            0 <= i < steps.drop_first().len() ==> #[trigger] steps.drop_first()[i] == steps[i
                + 1]);
        lemma_no_cross_actor_leak(v1, steps.drop_first(), a);
    }
}

/// A worker's own read directly after its thread-local set returns exactly
/// the value it set, whatever the state was before.
pub proof fn lemma_local_set_own_read(v: CountsView, w: usize, n: i32)
    requires
        w < v.worker_locals.len(),
    ensures
        spec_read(spec_apply(v, Actor::Worker(w), ControlAction::SetLocal(n)), Actor::Worker(w))
            == n,
{
}

/// Two workers that set distinct thread-local values each read back exactly
/// their own, and the coordinator's view is untouched: thread-local scope
/// isolates workers from one another.
pub proof fn lemma_thread_local_isolation(v: CountsView, w1: usize, w2: usize, n1: i32, n2: i32)
    requires
        w1 < v.worker_locals.len(),
        w2 < v.worker_locals.len(),
        w1 != w2,
    ensures
        ({
            let after = spec_apply(
                spec_apply(v, Actor::Worker(w1), ControlAction::SetLocal(n1)),
                Actor::Worker(w2),
                ControlAction::SetLocal(n2),
            );
            &&& spec_read(after, Actor::Worker(w1)) == n1
            &&& spec_read(after, Actor::Worker(w2)) == n2
            &&& spec_read(after, Actor::Coordinator) == spec_read(v, Actor::Coordinator)
        }),
{
}

/// A thread-local set by one worker is never observed by another worker's
/// read, nor by the coordinator's: no cross-thread leakage.
pub proof fn lemma_local_set_no_leak(v: CountsView, w: usize, n: i32, other: Actor)
    requires
        w < v.worker_locals.len(),
        actor_valid(v, other),
        other != Actor::Worker(w),
    ensures
        spec_read(spec_apply(v, Actor::Worker(w), ControlAction::SetLocal(n)), other) == spec_read(
            v,
            other,
        ),
{
}

} // verus!
