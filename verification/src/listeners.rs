//! Listeners storage.
use vstd::prelude::*;

verus! {

/// Identifier of a listener inside a [Listeners] storage.
pub type ListenerId = usize;

/// Owned listeners storage.
/// Each listener is associated with a constant [ListenerId]: the index of its slot.
/// A removed listener leaves an empty slot behind, so identifiers are never reused.
#[derive(Debug)]
pub struct Listeners<T> {
    inner: Vec<Option<T>>,
}

impl<T> View for Listeners<T> {
    type V = Seq<Option<T>>;

    /// The slots of the storage, indexed by [ListenerId].
    closed spec fn view(&self) -> Seq<Option<T>> {
        self.inner@
    }
}

impl<T> Listeners<T> {
    /// Creates an empty storage.
    pub fn new() -> (listeners: Self)
        ensures
            listeners@ == Seq::<Option<T>>::empty(),
    {
        Listeners { inner: Vec::new() }
    }

    /// Add new listener to the storage.
    ///
    /// Returns [ListenerId] associated with the given listener in this storage.
    pub fn add(&mut self, listener: T) -> (id: ListenerId)
        ensures
            id == old(self)@.len(),
            final(self)@ == old(self)@.push(Some(listener)),
    {
        self.inner.push(Some(listener));
        self.inner.len() - 1
    }

    /// Remove listener by [ListenerId].
    ///
    /// Returns the listener, or `None` when the slot is empty or does not exist.
    pub fn remove(&mut self, id: ListenerId) -> (listener: Option<T>)
        ensures
            id < old(self)@.len() ==> listener == old(self)@[id as int]
                && final(self)@ == old(self)@.update(id as int, None),
            id >= old(self)@.len() ==> listener is None && final(self)@ == old(self)@,
    {
        if id < self.inner.len() {
            let mut placeholder: Option<T> = None;
            std::mem::swap(&mut self.inner[id], &mut placeholder);
            placeholder
        } else {
            None
        }
    }

    /// Whether the storage contains listener with the given id.
    pub fn contains(&self, id: ListenerId) -> (found: bool)
        ensures
            found == (id < self@.len() && self@[id as int] is Some),
    {
        if id < self.inner.len() {
            self.inner[id].is_some()
        } else {
            false
        }
    }
}

impl<T> Default for Listeners<T> {
    fn default() -> (listeners: Self)
        ensures
            listeners@ == Seq::<Option<T>>::empty(),
    {
        Listeners::new()
    }
}

/// An object that can register an events listener.
/// Ownership of the listener is not taken: the registered listener is handed back and has to
/// be kept alive to receive events.
/// If possible, an owner implementing [OwnListeners] is preferred.
pub trait AddListener {
    /// Events listener struct.
    type Events;

    /// Registers the listener and returns it. It should be kept alive to receive events.
    fn add_listener(&self, events: Box<Self::Events>) -> (registered: Box<Self::Events>)
        ensures
            registered == events,
    ;
}

/// An object that can register events listeners and keeps them in its own [Listeners] storage.
pub trait OwnListeners {
    /// The object that performs the registration.
    type RawWrapperType: AddListener;

    /// The slots of the listeners storage, as seen by the specification.
    spec fn spec_listeners(&self) -> Seq<Option<Box<<Self::RawWrapperType as AddListener>::Events>>>;

    /// The object that performs the registration.
    fn raw_wrapper(&self) -> &Self::RawWrapperType;

    /// Listeners storage.
    fn listeners(&self) -> (listeners: &Listeners<Box<<Self::RawWrapperType as AddListener>::Events>>)
        ensures
            listeners@ == self.spec_listeners(),
    ;

    /// Listeners storage, for changing it.
    fn listeners_mut(&mut self) -> (listeners: &mut Listeners<
        Box<<Self::RawWrapperType as AddListener>::Events>,
    >)
        ensures
            listeners@ == old(self).spec_listeners(),
            final(self).spec_listeners() == final(listeners)@,
    ;

    /// Registers a new listener and adds the registered listener to the storage.
    ///
    /// Returns the [ListenerId] that can be used to remove the listener from the storage.
    fn add_listener(&mut self, events: Box<<Self::RawWrapperType as AddListener>::Events>) -> (id:
        ListenerId)
        ensures
            id == old(self).spec_listeners().len(),
            final(self).spec_listeners() == old(self).spec_listeners().push(Some(events)),
    {
        let listener = self.raw_wrapper().add_listener(events);
        self.listeners_mut().add(listener)
    }

    /// Removes the listener with the given [ListenerId] from the storage and returns it.
    /// The listener is unsubscribed when it is dropped.
    fn remove_listener(&mut self, id: ListenerId) -> (listener: Option<
        Box<<Self::RawWrapperType as AddListener>::Events>,
    >)
        ensures
            id < old(self).spec_listeners().len() ==> listener == old(self).spec_listeners()[id as int]
                && final(self).spec_listeners() == old(self).spec_listeners().update(id as int, None),
            id >= old(self).spec_listeners().len() ==> listener is None && final(self).spec_listeners()
                == old(self).spec_listeners(),
    {
        self.listeners_mut().remove(id)
    }

    /// Whether the storage contains a listener with the given id.
    fn contains_listener(&self, id: ListenerId) -> (found: bool)
        ensures
            found == (id < self.spec_listeners().len() && self.spec_listeners()[id as int] is Some),
    {
        self.listeners().contains(id)
    }
}

/// A call on a listeners storage: `add` of a listener, or `remove` of an id.
pub enum ListenerOp<T> {
    Add(T),
    Remove(ListenerId),
}

/// The slots after the call `op`, as the contracts of [Listeners::add] and
/// [Listeners::remove] state it.
pub open spec fn spec_apply<T>(slots: Seq<Option<T>>, op: ListenerOp<T>) -> Seq<Option<T>> {
    match op {
        ListenerOp::Add(listener) => slots.push(Some(listener)),
        ListenerOp::Remove(id) => if id < slots.len() {
            slots.update(id as int, None)
        } else {
            slots
        },
    }
}

/// The slots of a new storage after the calls `ops`, in order.
pub open spec fn spec_history<T>(ops: Seq<ListenerOp<T>>) -> Seq<Option<T>>
    decreases ops.len(),
{
    if ops.len() == 0 {
        Seq::empty()
    } else {
        spec_apply(spec_history(ops.drop_last()), ops.last())
    }
}

/// Number of `add` calls in `ops`.
pub open spec fn spec_count_adds<T>(ops: Seq<ListenerOp<T>>) -> nat
    decreases ops.len(),
{
    if ops.len() == 0 {
        0
    } else {
        spec_count_adds(ops.drop_last()) + if ops.last() is Add {
            1nat
        } else {
            0nat
        }
    }
}

/// Whether the call `op` removes the id `id`.
pub open spec fn spec_removes<T>(op: ListenerOp<T>, id: int) -> bool {
    match op {
        ListenerOp::Add(_) => false,
        ListenerOp::Remove(r) => r as int == id,
    }
}

/// The call at `p` in `ops` added `listener`, the id it returned is `id`, and no later call
/// removed `id`.
pub open spec fn spec_live<T>(ops: Seq<ListenerOp<T>>, id: int, p: int, listener: T) -> bool {
    &&& 0 <= p < ops.len()
    &&& ops[p] == ListenerOp::Add(listener)
    &&& spec_count_adds(ops.take(p)) == id
    &&& forall|q: int| p < q < ops.len() ==> !spec_removes(#[trigger] ops[q], id)
}

/// An `add` call counts among the `add` calls of every history that holds it.
proof fn lemma_count_adds_take<T>(ops: Seq<ListenerOp<T>>, p: int)
    requires
        0 <= p < ops.len(),
        ops[p] is Add,
    ensures
        spec_count_adds(ops.take(p)) + 1 <= spec_count_adds(ops),
    decreases ops.len(),
{
    let n = ops.len() - 1;
    if p == n {
        assert(ops.take(p) =~= ops.drop_last());
    } else {
        lemma_count_adds_take(ops.drop_last(), p);
        assert(ops.take(p) =~= ops.drop_last().take(p));
    }
}

/// A listener live in a history stays live after one more call that does not remove it,
/// and a listener live after a call that is not its own `add` was live before it.
proof fn lemma_live_step<T>(ops: Seq<ListenerOp<T>>, id: int, p: int, listener: T)
    requires
        ops.len() > 0,
        0 <= p < ops.len() - 1,
    ensures
        spec_live(ops, id, p, listener) <==> (spec_live(ops.drop_last(), id, p, listener)
            && !spec_removes(ops.last(), id)),
{
    let prefix = ops.drop_last();
    assert(ops.take(p) =~= prefix.take(p));
    assert(ops[p] == prefix[p]);
    if spec_live(ops, id, p, listener) {
        assert(!spec_removes(ops[ops.len() - 1], id));
        assert forall|q: int| p < q < prefix.len() implies !spec_removes(#[trigger] prefix[q], id) by {
            assert(ops[q] == prefix[q]);
        }
    }
    if spec_live(prefix, id, p, listener) && !spec_removes(ops.last(), id) {
        assert forall|q: int| p < q < ops.len() implies !spec_removes(#[trigger] ops[q], id) by {
            if q < prefix.len() {
                assert(ops[q] == prefix[q]);
            }
        }
    }
}

/// Over any history of calls on a new storage: the ids given are the number of earlier
/// `add` calls, so they start at zero and are never reused; the slot of an id holds a
/// listener exactly when an `add` returned that id for it and no `remove` of that id came
/// after.
pub proof fn lemma_history<T>(ops: Seq<ListenerOp<T>>)
    ensures
        spec_history(ops).len() == spec_count_adds(ops),
        forall|id: int, listener: T|
            0 <= id < spec_history(ops).len() ==> (spec_history(ops)[id] == Some(listener) <==> exists|
                p: int,
            | spec_live(ops, id, p, listener)),
    decreases ops.len(),
{
    if ops.len() > 0 {
        let prefix = ops.drop_last();
        let last = ops.last();
        let n = ops.len() - 1;
        lemma_history(prefix);
        let before = spec_history(prefix);
        let after = spec_history(ops);
        assert(ops.take(n) =~= prefix);
        assert forall|id: int, listener: T|
            0 <= id < after.len() implies (after[id] == Some(listener) <==> exists|p: int|
                spec_live(ops, id, p, listener)) by {
            if after[id] == Some(listener) {
                if last == ListenerOp::Add(listener) && id == before.len() {
                    assert(spec_live(ops, id, n, listener));
                } else {
                    assert(id < before.len());
                    assert(before[id] == Some(listener));
                    let p = choose|p: int| spec_live(prefix, id, p, listener);
                    if let ListenerOp::Remove(r) = last {
                        assert(r as int != id);
                    }
                    lemma_live_step(ops, id, p, listener);
                    assert(spec_live(ops, id, p, listener));
                }
            }
            if exists|p: int| spec_live(ops, id, p, listener) {
                let p = choose|p: int| spec_live(ops, id, p, listener);
                if p == n {
                    assert(last == ListenerOp::Add(listener));
                    assert(id == before.len());
                } else {
                    lemma_live_step(ops, id, p, listener);
                    lemma_count_adds_take(prefix, p);
                    assert(id < before.len());
                    assert(before[id] == Some(listener));
                }
            }
        }
    }
}

/// A listener just added is contained under the returned id, and removing that id gives it
/// back and leaves the id no longer contained.
pub proof fn lemma_add_then_remove<T>(slots: Seq<Option<T>>, listener: T)
    ensures
        ({
            let added = slots.push(Some(listener));
            let id = slots.len() as int;
            &&& added[id] is Some
            &&& added[id] == Some(listener)
            &&& added.update(id, None)[id] is None
            &&& added.update(id, None).len() == added.len()
        }),
{
}

/// The next id given by `add` is the number of slots, and removing a listener keeps the
/// number of slots: every id given before stays below the next one, so ids are never reused.
pub proof fn lemma_ids_not_reused<T>(slots: Seq<Option<T>>, removed: int, given: int)
    requires
        0 <= removed < slots.len(),
        0 <= given < slots.len(),
    ensures
        given < slots.update(removed, None).len(),
{
}

} // verus!
