use vstd::prelude::*;

use crate::outcome::Failure;
use crate::registry::Deferring;
use crate::registry::entries_invoked;

verus! {

/// The per-scope object through which callbacks are registered: exactly
/// three deferred registries, one per category. Registration is the only
/// operation the scope body needs; draining is solely the orchestrator's
/// responsibility, so no drain is exposed here.
pub struct Guard<S, SC, F, FC, E, EC> where SC: FnOnce(S), FC: FnOnce(F), EC: FnOnce(E) {
    on_success: Deferring<S, SC>,
    on_failure: Deferring<F, FC>,
    on_exit: Deferring<E, EC>,
}

impl<S, SC, F, FC, E, EC> Guard<S, SC, F, FC, E, EC> where
    SC: FnOnce(S),
    FC: FnOnce(F),
    EC: FnOnce(E),
 {
    /// The entries pending in the success registry, in registration order.
    pub closed spec fn success_pending(&self) -> Seq<(S, SC)> {
        self.on_success@
    }

    /// The entries pending in the failure registry, in registration order.
    pub closed spec fn failure_pending(&self) -> Seq<(F, FC)> {
        self.on_failure@
    }

    /// The entries pending in the exit registry, in registration order.
    pub closed spec fn exit_pending(&self) -> Seq<(E, EC)> {
        self.on_exit@
    }

    /// A guard with nothing registered in any category.
    pub open spec fn is_clear(&self) -> bool {
        &&& self.success_pending() == Seq::<(S, SC)>::empty()
        &&& self.failure_pending() == Seq::<(F, FC)>::empty()
        &&& self.exit_pending() == Seq::<(E, EC)>::empty()
    }

    /// Creates a guard with all three registries empty.
    pub fn new() -> (guard: Self)
        ensures
            guard.is_clear(),
    {
        Guard {
            on_success: Deferring::new(),
            on_failure: Deferring::new(),
            on_exit: Deferring::new(),
        }
    }

    /// Schedules deferred closure `dc` over `item` to run on the scope's
    /// success; returns the handle under which the payload stays accessible.
    pub fn on_scope_success(&mut self, item: S, dc: SC) -> (handle: usize)
        requires
            forall|t: S| call_requires(dc, (t,)),
        ensures
            final(self).success_pending() == old(self).success_pending().push((item, dc)),
            final(self).failure_pending() == old(self).failure_pending(),
            final(self).exit_pending() == old(self).exit_pending(),
            handle == old(self).success_pending().len(),
    {
        self.on_success.push(item, dc)
    }

    /// Schedules deferred closure `dc` over `item` to run on the scope's
    /// failure; returns the handle under which the payload stays accessible.
    pub fn on_scope_failure(&mut self, item: F, dc: FC) -> (handle: usize)
        requires
            forall|t: F| call_requires(dc, (t,)),
        ensures
            final(self).failure_pending() == old(self).failure_pending().push((item, dc)),
            final(self).success_pending() == old(self).success_pending(),
            final(self).exit_pending() == old(self).exit_pending(),
            handle == old(self).failure_pending().len(),
    {
        self.on_failure.push(item, dc)
    }

    /// Schedules deferred closure `dc` over `item` to run on the scope's
    /// exit; returns the handle under which the payload stays accessible.
    pub fn on_scope_exit(&mut self, item: E, dc: EC) -> (handle: usize)
        requires
            forall|t: E| call_requires(dc, (t,)),
        ensures
            final(self).exit_pending() == old(self).exit_pending().push((item, dc)),
            final(self).success_pending() == old(self).success_pending(),
            final(self).failure_pending() == old(self).failure_pending(),
            handle == old(self).exit_pending().len(),
    {
        self.on_exit.push(item, dc)
    }

    /// Reads the success payload behind `handle`.
    pub fn success_payload(&self, handle: usize) -> (item: &S)
        requires
            handle < self.success_pending().len(),
        ensures
            *item == self.success_pending()[handle as int].0,
    {
        self.on_success.payload(handle)
    }

    /// Borrows the success payload behind `handle`; all other entries and
    /// every callback stay untouched.
    pub fn success_payload_mut(&mut self, handle: usize) -> (item: &mut S)
        requires
            handle < old(self).success_pending().len(),
        ensures
            *item == old(self).success_pending()[handle as int].0,
            final(self).success_pending().len() == old(self).success_pending().len(),
            final(self).success_pending()[handle as int] == (
                *final(item),
                old(self).success_pending()[handle as int].1,
            ),
            forall|i: int|
                0 <= i < old(self).success_pending().len() && i != handle ==> final(self).success_pending()[i] == old(self).success_pending()[i],
            final(self).failure_pending() == old(self).failure_pending(),
            final(self).exit_pending() == old(self).exit_pending(),
    {
        self.on_success.payload_mut(handle)
    }

    /// Reads the failure payload behind `handle`.
    pub fn failure_payload(&self, handle: usize) -> (item: &F)
        requires
            handle < self.failure_pending().len(),
        ensures
            *item == self.failure_pending()[handle as int].0,
    {
        self.on_failure.payload(handle)
    }

    /// Borrows the failure payload behind `handle`; all other entries and
    /// every callback stay untouched.
    pub fn failure_payload_mut(&mut self, handle: usize) -> (item: &mut F)
        requires
            handle < old(self).failure_pending().len(),
        ensures
            *item == old(self).failure_pending()[handle as int].0,
            final(self).failure_pending().len() == old(self).failure_pending().len(),
            final(self).failure_pending()[handle as int] == (
                *final(item),
                old(self).failure_pending()[handle as int].1,
            ),
            forall|i: int|
                0 <= i < old(self).failure_pending().len() && i != handle ==> final(self).failure_pending()[i] == old(self).failure_pending()[i],
            final(self).success_pending() == old(self).success_pending(),
            final(self).exit_pending() == old(self).exit_pending(),
    {
        self.on_failure.payload_mut(handle)
    }

    /// Reads the exit payload behind `handle`.
    pub fn exit_payload(&self, handle: usize) -> (item: &E)
        requires
            handle < self.exit_pending().len(),
        ensures
            *item == self.exit_pending()[handle as int].0,
    {
        self.on_exit.payload(handle)
    }

    /// Borrows the exit payload behind `handle`; all other entries and every
    /// callback stay untouched.
    pub fn exit_payload_mut(&mut self, handle: usize) -> (item: &mut E)
        requires
            handle < old(self).exit_pending().len(),
        ensures
            *item == old(self).exit_pending()[handle as int].0,
            final(self).exit_pending().len() == old(self).exit_pending().len(),
            final(self).exit_pending()[handle as int] == (
                *final(item),
                old(self).exit_pending()[handle as int].1,
            ),
            forall|i: int|
                0 <= i < old(self).exit_pending().len() && i != handle ==> final(self).exit_pending()[i] == old(self).exit_pending()[i],
            final(self).success_pending() == old(self).success_pending(),
            final(self).failure_pending() == old(self).failure_pending(),
    {
        self.on_exit.payload_mut(handle)
    }
}

impl<S, SC, F, FC, E, EC> Default for Guard<S, SC, F, FC, E, EC> where
    SC: FnOnce(S),
    FC: FnOnce(F),
    EC: FnOnce(E),
 {
    /// A guard with nothing registered in any category.
    fn default() -> (guard: Self)
        ensures
            guard.is_clear(),
    {
        Guard::new()
    }
}

/// Executes the scope `scope` with a fresh guard, classifies the returned
/// outcome, drains exactly one of the success/failure registries according
/// to that classification, then always drains the exit registry, strictly
/// last, and returns the outcome untouched.
pub fn scoped<S, SC, F, FC, E, EC, R, Body>(scope: Body) -> (outcome: R) where
    SC: FnOnce(S),
    FC: FnOnce(F),
    EC: FnOnce(E),
    R: Failure,
    Body: FnOnce(&mut Guard<S, SC, F, FC, E, EC>) -> R,

    requires
        forall|g: &mut Guard<S, SC, F, FC, E, EC>| (*g).is_clear() ==> call_requires(scope, (g,)),
    ensures
        exists|g: &mut Guard<S, SC, F, FC, E, EC>|
            {
                &&& (*g).is_clear()
                &&& #[trigger] call_ensures(scope, (g,), outcome)
                &&& !outcome.is_error_spec() ==> entries_invoked((*final(g)).success_pending())
                &&& outcome.is_error_spec() ==> entries_invoked((*final(g)).failure_pending())
                &&& entries_invoked((*final(g)).exit_pending())
            },
{
    let mut guard = Guard::new();
    let outcome = scope(&mut guard);
    if !outcome.is_error() {
        let _ = guard.on_success.execute();
    } else {
        let _ = guard.on_failure.execute();
    }
    let _ = guard.on_exit.execute();
    outcome
}

} // verus!
