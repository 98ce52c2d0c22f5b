use vstd::prelude::*;

verus! {

/// One deferred action: a payload together with the one-shot callback that
/// consumes it. Created when an entry is about to run; destroyed by running.
pub struct DeferCallback<T, F> where F: FnOnce(T) {
    item: T,
    call_fn: F,
}

impl<T, F> DeferCallback<T, F> where F: FnOnce(T) {
    /// The callback must accept every payload value: the payload may have
    /// been rewritten through its handle at any time before the drain.
    #[verifier::type_invariant]
    spec fn callback_is_total(self) -> bool {
        forall|t: T| call_requires(self.call_fn, (t,))
    }

    /// The payload, as a mathematical value.
    pub closed spec fn item_spec(self) -> T {
        self.item
    }

    /// The callback, as a mathematical value.
    pub closed spec fn call_fn_spec(self) -> F {
        self.call_fn
    }

    /// Packs a payload with the callback that will consume it.
    pub fn new(item: T, call_fn: F) -> (entry: Self)
        requires
            forall|t: T| call_requires(call_fn, (t,)),
        ensures
            entry.item_spec() == item,
            entry.call_fn_spec() == call_fn,
    {
        DeferCallback { item, call_fn }
    }

    /// Invokes the callback, exactly once, with ownership of the payload.
    pub fn call(self)
        ensures
            call_ensures(self.call_fn_spec(), (self.item_spec(),), ()),
    {
        proof {
            use_type_invariant(&self);
        }
        let DeferCallback { item, call_fn } = self;
        call_fn(item);
    }
}

/// The payloads of a sequence of entries, in registration order.
pub open spec fn payloads_of<T, F>(entries: Seq<(T, F)>) -> Seq<T> {
    entries.map_values(|p: (T, F)| p.0)
}

/// Every entry's callback has been applied to that entry's payload: each
/// holds an admissible input-output pair of its callback. This is how a
/// completed drain is described.
pub open spec fn entries_invoked<T, F: FnOnce(T)>(entries: Seq<(T, F)>) -> bool {
    forall|i: int|
        0 <= i < entries.len() ==> #[trigger] call_ensures(entries[i].1, (entries[i].0,), ())
}

/// An ordered, append-only-until-drained store of deferred entries.
///
/// Registration returns a handle (the entry's position); the payload behind a
/// handle stays readable and writable, and is never disturbed by later
/// registrations. Draining consumes every entry in reverse registration
/// order and leaves the registry empty.
///
/// Payloads and callbacks live in two columns so that a payload can be
/// borrowed mutably while the callbacks stay untouched.
pub struct Deferring<T, F> where F: FnOnce(T) {
    items: Vec<T>,
    call_fns: Vec<F>,
}

impl<T, F> View for Deferring<T, F> where F: FnOnce(T) {
    type V = Seq<(T, F)>;

    /// The registry is modelled as the sequence of (payload, callback)
    /// pairs, in registration order.
    closed spec fn view(&self) -> Seq<(T, F)> {
        self.items@.zip_with(self.call_fns@)
    }
}

impl<T, F> Deferring<T, F> where F: FnOnce(T) {
    /// The two columns always pair up, and every stored callback accepts
    /// every payload value: a payload may be rewritten through its handle at
    /// any time before the drain.
    #[verifier::type_invariant]
    spec fn well_formed(self) -> bool {
        &&& self.items@.len() == self.call_fns@.len()
        &&& forall|i: int, t: T|
            0 <= i < self.call_fns@.len() ==> #[trigger] call_requires(self.call_fns@[i], (t,))
    }

    /// The pending payloads, in registration order.
    pub open spec fn items(&self) -> Seq<T> {
        payloads_of(self@)
    }

    /// Creates an empty registry.
    pub fn new() -> (registry: Self)
        ensures
            registry@ == Seq::<(T, F)>::empty(),
    {
        let registry = Deferring { items: Vec::new(), call_fns: Vec::new() };
        proof {
            assert(registry@ =~= Seq::<(T, F)>::empty());
        }
        registry
    }

    /// Appends one entry and returns its handle: the entry's position, which
    /// no later registration or payload write ever changes.
    pub fn push(&mut self, item: T, call_fn: F) -> (handle: usize)
        requires
            forall|t: T| call_requires(call_fn, (t,)),
        ensures
            final(self)@ == old(self)@.push((item, call_fn)),
            handle == old(self)@.len(),
    {
        proof {
            use_type_invariant(&*self);
        }
        let ghost pre = self@;
        let mut taken = Deferring::new();
        core::mem::swap(&mut taken, self);
        let Deferring { mut items, mut call_fns } = taken;
        let handle = items.len();
        items.push(item);
        call_fns.push(call_fn);
        *self = Deferring { items, call_fns };
        proof {
            assert(self@ =~= pre.push((item, call_fn)));
        }
        handle
    }

    /// Reads the payload that `handle` was issued for.
    pub fn payload(&self, handle: usize) -> (item: &T)
        requires
            handle < self@.len(),
        ensures
            *item == self@[handle as int].0,
    {
        proof {
            use_type_invariant(self);
        }
        &self.items[handle]
    }

    /// Borrows the payload that `handle` was issued for; every other entry,
    /// and every callback, is untouched, so the entry's callback will consume
    /// whatever value the caller leaves behind the borrow.
    pub fn payload_mut(&mut self, handle: usize) -> (item: &mut T)
        requires
            handle < old(self)@.len(),
        ensures
            *item == old(self)@[handle as int].0,
            final(self)@.len() == old(self)@.len(),
            final(self)@[handle as int] == (*final(item), old(self)@[handle as int].1),
            forall|i: int|
                0 <= i < old(self)@.len() && i != handle ==> final(self)@[i] == old(self)@[i],
    {
        proof {
            use_type_invariant(&*self);
        }
        &mut self.items[handle]
    }

    /// Drains the registry: invokes every stored callback exactly once, each
    /// with its own payload, in strict reverse registration order, and leaves
    /// the registry empty. Draining an empty registry invokes nothing and is
    /// not an error. The returned trace lists the payloads in the order their
    /// callbacks were invoked.
    pub fn execute(&mut self) -> (trace: Ghost<Seq<T>>)
        ensures
            final(self)@ == Seq::<(T, F)>::empty(),
            trace@ == old(self).items().reverse(),
            entries_invoked(old(self)@),
            old(self)@.len() == 0 ==> trace@ == Seq::<T>::empty(),
    {
        proof {
            use_type_invariant(&*self);
        }
        let ghost orig = self@;
        let mut taken = Deferring::new();
        core::mem::swap(&mut taken, self);
        let Deferring { mut items, mut call_fns } = taken;
        let ghost mut done: Seq<T> = Seq::empty();
        proof {
            assert(self@ =~= Seq::<(T, F)>::empty());
            assert(orig =~= items@.zip_with(call_fns@));
        }
        while items.len() > 0
            invariant
                items@.len() == call_fns@.len(),
                items@.len() <= orig.len(),
                forall|i: int|
                    0 <= i < items@.len() ==> orig[i] == (#[trigger] items@[i], call_fns@[i]),
                forall|i: int, t: T|
                    0 <= i < call_fns@.len() ==> #[trigger] call_requires(call_fns@[i], (t,)),
                done == payloads_of(orig.subrange(items@.len() as int, orig.len() as int)).reverse(),
                forall|i: int|
                    items@.len() <= i < orig.len() ==> #[trigger] call_ensures(
                        orig[i].1,
                        (orig[i].0,),
                        (),
                    ),
            decreases items.len(),
        {
            let ghost remaining = items@.len() as int;
            let item = items.pop().unwrap();
            let call_fn = call_fns.pop().unwrap();
            proof {
                assert((item, call_fn) == orig[remaining - 1]);
            }
            let entry = DeferCallback::new(item, call_fn);
            proof {
                done = done.push(entry.item_spec());
                assert(done =~= payloads_of(
                    orig.subrange(remaining - 1, orig.len() as int),
                ).reverse());
            }
            entry.call();
        }
        proof {
            assert(orig.subrange(0, orig.len() as int) =~= orig);
            assert(done =~= payloads_of(orig).reverse());
            if orig.len() == 0 {
                assert(done =~= Seq::<T>::empty());
            }
        }
        Ghost(done)
    }
}

impl<T, F> Default for Deferring<T, F> where F: FnOnce(T) {
    /// An empty registry.
    fn default() -> (registry: Self)
        ensures
            registry@ == Seq::<(T, F)>::empty(),
    {
        Deferring::new()
    }
}

/// Law: registering one more entry never disturbs the entry an earlier
/// handle refers to, so a handle's payload reads stay consistent however
/// many registrations follow.
pub proof fn lemma_registration_keeps_entries<T, F>(entries: Seq<(T, F)>, entry: (T, F), handle: int)
    requires
        0 <= handle < entries.len(),
    ensures
        entries.push(entry)[handle] == entries[handle],
{
}

/// Law: a drain's trace presents the payloads in exact reverse registration
/// order: the entry registered at position `handle` is invoked as step
/// `len - 1 - handle` of the drain.
pub proof fn lemma_drain_order<T, F>(entries: Seq<(T, F)>, handle: int)
    requires
        0 <= handle < entries.len(),
    ensures
        payloads_of(entries).reverse()[entries.len() - 1 - handle] == entries[handle].0,
{
}

} // verus!
