//! A circular doubly-linked list with a head, as used by SPA.
//!
//! The nodes live in an arena and are named by their index; node 0 is the head. Each node
//! has links to the previous and the next node, and the head links to the first and the
//! last element. An element is created detached, then inserted, appended, removed, or
//! moved from another list.
use vstd::prelude::*;

verus! {

/// Index of the head node.
pub const LIST_HEAD: usize = 0;

/// The links of a node: the previous and the next node.
#[derive(Debug, Clone, Copy, PartialEq, Eq, Structural)]
pub struct ListRef {
    pub prev: usize,
    pub next: usize,
}

/// A list of elements with payloads of type `T`.
pub struct List<T> {
    /// Links of each node; none for a node whose links were never set.
    links: Vec<Option<ListRef>>,
    /// Payload of each node; none for the head and for elements whose payload was taken.
    payloads: Vec<Option<T>>,
    /// The elements of the list, in order.
    order: Ghost<Seq<usize>>,
}

/// The node before position `k` of `order`: the previous element, or the head.
pub open spec fn spec_prev_of(order: Seq<usize>, k: int) -> usize {
    if k == 0 {
        LIST_HEAD
    } else {
        order[k - 1]
    }
}

/// The node after position `k` of `order`: the next element, or the head.
pub open spec fn spec_next_of(order: Seq<usize>, k: int) -> usize {
    if k == order.len() - 1 {
        LIST_HEAD
    } else {
        order[k + 1]
    }
}

/// The links of the head of a list whose elements are `order`.
pub open spec fn spec_head_link(order: Seq<usize>) -> ListRef {
    if order.len() == 0 {
        ListRef { prev: LIST_HEAD, next: LIST_HEAD }
    } else {
        ListRef { prev: order.last(), next: order[0] }
    }
}

impl<T> List<T> {
    /// The elements of the list, in order.
    pub closed spec fn spec_order(&self) -> Seq<usize> {
        self.order@
    }

    /// Number of nodes, the head included.
    pub closed spec fn spec_nodes(&self) -> nat {
        self.links@.len()
    }

    /// Whether the head links were set.
    pub closed spec fn spec_initialized(&self) -> bool {
        self.links@[LIST_HEAD as int] is Some
    }

    /// The payload of node `elem`, if it has one.
    pub closed spec fn spec_payload(&self, elem: usize) -> Option<T> {
        self.payloads@[elem as int]
    }

    /// Whether `elem` is an element of the list.
    pub open spec fn spec_contains(&self, elem: usize) -> bool {
        self.spec_order().contains(elem)
    }

    /// The payloads of the elements, in order.
    pub open spec fn spec_values(&self) -> Seq<T> {
        self.spec_order().map_values(|i: usize| self.spec_payload(i).unwrap())
    }

    /// The nodes and links form the list: the head links to the first and last elements,
    /// each element to its neighbours, the elements are distinct nodes, and each holds a
    /// payload.
    pub closed spec fn well_formed(&self) -> bool {
        let order = self.order@;
        &&& self.links@.len() == self.payloads@.len()
        &&& self.links@.len() >= 1
        &&& self.links@.len() <= usize::MAX
        &&& forall|j: int, k: int| 0 <= j < k < order.len() ==> order[j] != order[k]
        &&& forall|k: int| 0 <= k < order.len() ==> 1 <= #[trigger] order[k] < self.links@.len()
        &&& forall|k: int| 0 <= k < order.len() ==> (#[trigger] self.payloads@[order[k] as int]) is Some
        &&& self.links@[LIST_HEAD as int] is None ==> order.len() == 0
        &&& self.links@[LIST_HEAD as int] is Some ==> self.links@[LIST_HEAD as int]
            == Some(spec_head_link(order))
        &&& forall|k: int|
            0 <= k < order.len() ==> #[trigger] self.links@[order[k] as int] == Some(
                ListRef { prev: spec_prev_of(order, k), next: spec_next_of(order, k) },
            )
    }

    /// Creates a list whose head links are not set.
    pub fn new() -> (list: Self)
        ensures
            list.well_formed(),
            !list.spec_initialized(),
            list.spec_order() == Seq::<usize>::empty(),
            list.spec_nodes() == 1,
    {
        let mut links: Vec<Option<ListRef>> = Vec::new();
        links.push(None);
        let mut payloads: Vec<Option<T>> = Vec::new();
        payloads.push(None);
        List { links, payloads, order: Ghost(Seq::empty()) }
    }

    /// Creates a detached element holding `payload`.
    pub fn new_element(&mut self, payload: T) -> (elem: usize)
        requires
            old(self).well_formed(),
            old(self).spec_nodes() < usize::MAX,
        ensures
            final(self).well_formed(),
            elem == old(self).spec_nodes(),
            final(self).spec_nodes() == old(self).spec_nodes() + 1,
            final(self).spec_order() == old(self).spec_order(),
            final(self).spec_initialized() == old(self).spec_initialized(),
            final(self).spec_payload(elem) == Some(payload),
            forall|i: usize| i < old(self).spec_nodes() ==> final(self).spec_payload(i) == old(
                self,
            ).spec_payload(i),
            !final(self).spec_contains(elem),
    {
        let elem = self.links.len();
        self.links.push(None);
        self.payloads.push(Some(payload));
        proof {
            assert forall|k: int| 0 <= k < self.order@.len() implies #[trigger] self.links@[
                self.order@[k] as int
            ] == Some(
                ListRef { prev: spec_prev_of(self.order@, k), next: spec_next_of(self.order@, k) },
            ) by {
                assert(self.links@[self.order@[k] as int] == old(self).links@[self.order@[k] as int]);
            }
            assert forall|k: int| 0 <= k < self.order@.len() implies (
            #[trigger] self.payloads@[self.order@[k] as int]) is Some by {
                assert(self.payloads@[self.order@[k] as int] == old(
                    self,
                ).payloads@[self.order@[k] as int]);
            }
            if self.order@.contains(elem) {
                let k = self.order@.index_of(elem);
                assert(self.order@[k] < old(self).links@.len());
            }
        }
        elem
    }

    /// Set the head links: the list becomes empty.
    pub fn init(&mut self)
        requires
            old(self).well_formed(),
        ensures
            final(self).well_formed(),
            final(self).spec_initialized(),
            final(self).spec_order() == Seq::<usize>::empty(),
            final(self).spec_nodes() == old(self).spec_nodes(),
            forall|i: usize| final(self).spec_payload(i) == old(self).spec_payload(i),
    {
        self.links.set(LIST_HEAD, Some(ListRef { prev: LIST_HEAD, next: LIST_HEAD }));
        self.order = Ghost(Seq::empty());
    }

    /// Whether the head links were set.
    pub fn initialized(&self) -> (r: bool)
        requires
            self.well_formed(),
        ensures
            r == self.spec_initialized(),
    {
        self.links[LIST_HEAD].is_some()
    }

    /// Whether the list is initialized and has no element.
    pub fn empty(&self) -> (r: bool)
        requires
            self.well_formed(),
        ensures
            r == (self.spec_initialized() && self.spec_order().len() == 0),
    {
        match self.links[LIST_HEAD] {
            Some(head) => head.next == head.prev && head.next == LIST_HEAD,
            None => false,
        }
    }

    /// The first element, if there is one.
    pub fn first(&self) -> (r: Option<usize>)
        requires
            self.well_formed(),
            self.spec_initialized(),
        ensures
            self.spec_order().len() == 0 ==> r is None,
            self.spec_order().len() > 0 ==> r == Some(self.spec_order()[0]),
    {
        let head = self.links[LIST_HEAD].unwrap();
        if head.next == LIST_HEAD {
            None
        } else {
            Some(head.next)
        }
    }

    /// The last element, if there is one.
    pub fn last(&self) -> (r: Option<usize>)
        requires
            self.well_formed(),
            self.spec_initialized(),
        ensures
            self.spec_order().len() == 0 ==> r is None,
            self.spec_order().len() > 0 ==> r == Some(self.spec_order().last()),
    {
        let head = self.links[LIST_HEAD].unwrap();
        if head.prev == LIST_HEAD {
            None
        } else {
            Some(head.prev)
        }
    }

    /// The element after `current`, if there is one.
    pub fn next(&self, current: usize) -> (r: Option<usize>)
        requires
            self.well_formed(),
            self.spec_contains(current),
        ensures
            ({
                let k = self.spec_order().index_of(current);
                &&& k == self.spec_order().len() - 1 ==> r is None
                &&& k < self.spec_order().len() - 1 ==> r == Some(self.spec_order()[k + 1])
            }),
    {
        let ghost k = self.order@.index_of(current);
        proof {
            assert(self.links@[self.order@[k] as int] is Some);
        }
        let link = self.links[current].unwrap();
        if link.next == LIST_HEAD {
            None
        } else {
            Some(link.next)
        }
    }

    /// The element before `current`, if there is one.
    pub fn prev(&self, current: usize) -> (r: Option<usize>)
        requires
            self.well_formed(),
            self.spec_contains(current),
        ensures
            ({
                let k = self.spec_order().index_of(current);
                &&& k == 0 ==> r is None
                &&& k > 0 ==> r == Some(self.spec_order()[k - 1])
            }),
    {
        let ghost k = self.order@.index_of(current);
        proof {
            assert(self.links@[self.order@[k] as int] is Some);
        }
        let link = self.links[current].unwrap();
        if link.prev == LIST_HEAD {
            None
        } else {
            Some(link.prev)
        }
    }

    /// Insert the detached element `elem` at the front of the list.
    pub fn insert(&mut self, elem: usize)
        requires
            old(self).well_formed(),
            old(self).spec_initialized(),
            1 <= elem < old(self).spec_nodes(),
            !old(self).spec_contains(elem),
            old(self).spec_payload(elem) is Some,
        ensures
            final(self).well_formed(),
            final(self).spec_initialized(),
            final(self).spec_order() == seq![elem] + old(self).spec_order(),
            final(self).spec_nodes() == old(self).spec_nodes(),
            forall|i: usize| final(self).spec_payload(i) == old(self).spec_payload(i),
    {
        let ghost o = self.order@;
        let head = self.links[LIST_HEAD].unwrap();
        self.links.set(elem, Some(ListRef { prev: LIST_HEAD, next: head.next }));
        self.links.set(LIST_HEAD, Some(ListRef { prev: head.prev, next: elem }));
        let next = head.next;
        proof {
            if o.len() > 0 {
                assert(o[0] != elem);
                assert(self.links@[o[0] as int] == old(self).links@[o[0] as int]);
            }
        }
        let next_link = self.links[next].unwrap();
        self.links.set(next, Some(ListRef { prev: elem, next: next_link.next }));
        self.order = Ghost(seq![elem] + o);
        proof {
            let n = self.order@;
            assert forall|k: int| 0 <= k < n.len() implies #[trigger] self.links@[n[k] as int]
                == Some(ListRef { prev: spec_prev_of(n, k), next: spec_next_of(n, k) }) by {
                if k > 0 {
                    assert(n[k] == o[k - 1]);
                    assert(o[k - 1] != elem);
                    if k > 1 {
                        assert(o[k - 1] != o[0]);
                    }
                }
            }
            assert forall|j: int, k: int| 0 <= j < k < n.len() implies n[j] != n[k] by {
                if j == 0 {
                    assert(n[k] == o[k - 1]);
                    assert(o.contains(o[k - 1]));
                }
            }
            assert forall|k: int| 0 <= k < n.len() implies 1 <= #[trigger] n[k] < self.links@.len() by {
                if k > 0 {
                    assert(n[k] == o[k - 1]);
                }
            }
            assert forall|k: int| 0 <= k < n.len() implies (#[trigger] self.payloads@[n[k] as int]) is Some by {
                if k > 0 {
                    assert(n[k] == o[k - 1]);
                }
            }
        }
    }

    /// Insert the detached element `elem` at the back of the list.
    pub fn append(&mut self, elem: usize)
        requires
            old(self).well_formed(),
            old(self).spec_initialized(),
            1 <= elem < old(self).spec_nodes(),
            !old(self).spec_contains(elem),
            old(self).spec_payload(elem) is Some,
        ensures
            final(self).well_formed(),
            final(self).spec_initialized(),
            final(self).spec_order() == old(self).spec_order().push(elem),
            final(self).spec_nodes() == old(self).spec_nodes(),
            forall|i: usize| final(self).spec_payload(i) == old(self).spec_payload(i),
    {
        let ghost o = self.order@;
        let head = self.links[LIST_HEAD].unwrap();
        let last = head.prev;
        proof {
            if o.len() > 0 {
                assert(self.links@[o[o.len() - 1] as int] is Some);
            }
        }
        let last_link = self.links[last].unwrap();
        self.links.set(elem, Some(ListRef { prev: last, next: last_link.next }));
        self.links.set(last, Some(ListRef { prev: last_link.prev, next: elem }));
        let head_link = self.links[LIST_HEAD].unwrap();
        self.links.set(LIST_HEAD, Some(ListRef { prev: elem, next: head_link.next }));
        self.order = Ghost(o.push(elem));
        proof {
            let n = self.order@;
            assert forall|k: int| 0 <= k < n.len() implies #[trigger] self.links@[n[k] as int]
                == Some(ListRef { prev: spec_prev_of(n, k), next: spec_next_of(n, k) }) by {
                if k < o.len() {
                    assert(n[k] == o[k]);
                    assert(o[k] != elem);
                    assert(self.links@[o[k] as int] == old(self).links@[o[k] as int] || o[k] == last);
                }
            }
            assert forall|j: int, k: int| 0 <= j < k < n.len() implies n[j] != n[k] by {
                if k == o.len() {
                    assert(n[j] == o[j]);
                    assert(o.contains(o[j]));
                }
            }
            assert forall|k: int| 0 <= k < n.len() implies 1 <= #[trigger] n[k] < self.links@.len() by {
                if k < o.len() {
                    assert(n[k] == o[k]);
                }
            }
            assert forall|k: int| 0 <= k < n.len() implies (#[trigger] self.payloads@[n[k] as int]) is Some by {
                if k < o.len() {
                    assert(n[k] == o[k]);
                }
            }
        }
    }

    /// Same as [Self::insert].
    pub fn prepend(&mut self, elem: usize)
        requires
            old(self).well_formed(),
            old(self).spec_initialized(),
            1 <= elem < old(self).spec_nodes(),
            !old(self).spec_contains(elem),
            old(self).spec_payload(elem) is Some,
        ensures
            final(self).well_formed(),
            final(self).spec_initialized(),
            final(self).spec_order() == seq![elem] + old(self).spec_order(),
            final(self).spec_nodes() == old(self).spec_nodes(),
            forall|i: usize| final(self).spec_payload(i) == old(self).spec_payload(i),
    {
        self.insert(elem)
    }

    /// Unlink the element `elem` from the list; its payload stays with it.
    pub fn remove(&mut self, elem: usize)
        requires
            old(self).well_formed(),
            old(self).spec_contains(elem),
        ensures
            final(self).well_formed(),
            final(self).spec_initialized() == old(self).spec_initialized(),
            final(self).spec_order() == old(self).spec_order().remove(
                old(self).spec_order().index_of(elem),
            ),
            final(self).spec_nodes() == old(self).spec_nodes(),
            forall|i: usize| final(self).spec_payload(i) == old(self).spec_payload(i),
    {
        let ghost o = self.order@;
        let ghost k = o.index_of(elem);
        proof {
            assert(self.links@[o[k] as int] is Some);
            if k > 0 {
                assert(self.links@[o[k - 1] as int] is Some);
            }
            if k < o.len() - 1 {
                assert(self.links@[o[k + 1] as int] is Some);
                assert(o[k + 1] != o[k]);
            }
            if k > 0 {
                assert(o[k - 1] != o[k]);
            }
            if k > 0 && k < o.len() - 1 {
                assert(o[k - 1] != o[k + 1]);
            }
        }
        let link = self.links[elem].unwrap();
        let prev = link.prev;
        let next = link.next;
        let prev_link = self.links[prev].unwrap();
        self.links.set(prev, Some(ListRef { prev: prev_link.prev, next }));
        let next_link = self.links[next].unwrap();
        self.links.set(next, Some(ListRef { prev, next: next_link.next }));
        self.order = Ghost(o.remove(k));
        proof {
            let n = self.order@;
            assert forall|j: int| 0 <= j < n.len() implies #[trigger] self.links@[n[j] as int]
                == Some(ListRef { prev: spec_prev_of(n, j), next: spec_next_of(n, j) }) by {
                if j < k {
                    assert(n[j] == o[j]);
                    assert(o[j] != o[k]);
                    if j < k - 1 {
                        assert(o[j] != o[k - 1]);
                    }
                    if k < o.len() - 1 {
                        assert(o[j] != o[k + 1]);
                    }
                } else {
                    assert(n[j] == o[j + 1]);
                    assert(o[j + 1] != o[k]);
                    if j > k {
                        assert(o[j + 1] != o[k + 1]);
                    }
                    if k > 0 {
                        assert(o[j + 1] != o[k - 1]);
                    }
                }
            }
            assert forall|a: int, b: int| 0 <= a < b < n.len() implies n[a] != n[b] by {
                let a0 = if a < k { a } else { a + 1 };
                let b0 = if b < k { b } else { b + 1 };
                assert(n[a] == o[a0]);
                assert(n[b] == o[b0]);
            }
            assert forall|j: int| 0 <= j < n.len() implies 1 <= #[trigger] n[j] < self.links@.len() by {
                let j0 = if j < k { j } else { j + 1 };
                assert(n[j] == o[j0]);
            }
            assert forall|j: int| 0 <= j < n.len() implies (#[trigger] self.payloads@[n[j] as int]) is Some by {
                let j0 = if j < k { j } else { j + 1 };
                assert(n[j] == o[j0]);
            }
            if n.len() > 0 {
                assert(n[0] == if k == 0 { o[1] } else { o[0] });
                assert(n.last() == if k == o.len() - 1 { o[o.len() - 2] } else { o.last() });
            }
        }
    }

    /// Unlink every element.
    pub fn clean(&mut self)
        requires
            old(self).well_formed(),
            old(self).spec_initialized(),
        ensures
            final(self).well_formed(),
            final(self).spec_initialized(),
            final(self).spec_order() == Seq::<usize>::empty(),
            final(self).spec_nodes() == old(self).spec_nodes(),
            forall|i: usize| final(self).spec_payload(i) == old(self).spec_payload(i),
    {
        loop
            invariant
                self.well_formed(),
                self.spec_initialized(),
                self.spec_nodes() == old(self).spec_nodes(),
                forall|i: usize| self.spec_payload(i) == old(self).spec_payload(i),
            ensures
                self.spec_order() == Seq::<usize>::empty(),
            decreases self.spec_order().len(),
        {
            match self.first() {
                Some(first) => {
                    proof {
                        assert(self.spec_order()[0] == first);
                        assert(self.spec_order().contains(first));
                    }
                    self.remove(first);
                },
                None => {
                    return;
                },
            }
        }
    }

    /// Unlink the last element and take its payload, if there is one.
    fn take_last(&mut self) -> (r: Option<T>)
        requires
            old(self).well_formed(),
            old(self).spec_initialized(),
        ensures
            final(self).well_formed(),
            final(self).spec_initialized(),
            final(self).spec_nodes() == old(self).spec_nodes(),
            old(self).spec_order().len() == 0 ==> r is None && final(self).spec_values()
                == old(self).spec_values(),
            old(self).spec_order().len() > 0 ==> r == Some(old(self).spec_values().last())
                && final(self).spec_values() == old(self).spec_values().drop_last(),
            final(self).spec_order().len() + (if r is Some { 1int } else { 0int })
                == old(self).spec_order().len(),
    {
        let ghost o = self.order@;
        match self.last() {
            None => None,
            Some(last) => {
                proof {
                    assert(o[o.len() - 1] == last);
                    assert(o.contains(last));
                    assert(o.index_of(last) == o.len() - 1) by {
                        let i = o.index_of(last);
                        if i != o.len() - 1 {
                            assert(o[i] == o[o.len() - 1]);
                        }
                    }
                    assert(self.payloads@[o[o.len() - 1] as int] is Some);
                    assert(self.spec_payload(last) is Some);
                }
                let ghost before = self.spec_values();
                self.remove(last);
                let ghost mid_order = self.order@;
                proof {
                    assert(mid_order =~= o.drop_last());
                }
                let ghost payload = self.payloads@[last as int];
                assert(self.spec_payload(last) is Some);
                assert(payload is Some);
                let mut taken: Option<T> = None;
                self.payloads.set_and_swap(last, &mut taken);
                proof {
                    assert(taken == payload);
                    assert forall|k: int| 0 <= k < mid_order.len() implies mid_order[k] != last by {
                        assert(mid_order[k] == o[k]);
                    }
                    assert forall|k: int| 0 <= k < mid_order.len() implies (
                    #[trigger] self.payloads@[mid_order[k] as int]) is Some by {
                        assert(mid_order[k] != last);
                    }
                    assert(self.spec_values() =~= before.drop_last()) by {
                        assert forall|k: int| 0 <= k < mid_order.len() implies self.spec_values()[k]
                            == before.drop_last()[k] by {
                            assert(mid_order[k] != last);
                        }
                    }
                }
                taken
            },
        }
    }

    /// Move the elements of `other` to the front of this list, in their order; `other` is
    /// left empty.
    pub fn insert_list(&mut self, other: &mut List<T>)
        requires
            old(self).well_formed(),
            old(self).spec_initialized(),
            old(other).well_formed(),
            old(other).spec_initialized(),
            old(self).spec_nodes() + old(other).spec_order().len() <= usize::MAX,
        ensures
            final(self).well_formed(),
            final(self).spec_initialized(),
            final(self).spec_values() == old(other).spec_values() + old(self).spec_values(),
            final(other).well_formed(),
            final(other).spec_initialized(),
            final(other).spec_values() == Seq::<T>::empty(),
    {
        if other.empty() {
            proof {
                assert(other.spec_values() =~= Seq::<T>::empty());
                assert(old(other).spec_values() + self.spec_values() =~= self.spec_values());
            }
            return;
        }
        let ghost moved = other.spec_values();
        let ghost kept = self.spec_values();
        assert(moved == old(other).spec_values());
        assert(kept == old(self).spec_values());
        loop
            invariant
                self.well_formed(),
                self.spec_initialized(),
                other.well_formed(),
                other.spec_initialized(),
                self.spec_nodes() + other.spec_order().len() <= usize::MAX,
                other.spec_values().len() == other.spec_order().len(),
                other.spec_values() == moved.subrange(0, other.spec_values().len() as int),
                other.spec_values().len() <= moved.len(),
                self.spec_values() == moved.subrange(other.spec_values().len() as int, moved.len() as int) + kept,
                moved == old(other).spec_values(),
                kept == old(self).spec_values(),
            ensures
                other.spec_values() == Seq::<T>::empty(),
                self.spec_values() == moved + kept,
            decreases other.spec_order().len(),
        {
            let ghost before_self = self.spec_values();
            let ghost before_other = other.spec_values();
            match other.take_last() {
                Some(value) => {
                    let ghost old_order = self.spec_order();
                    let elem = self.new_element(value);
                    proof {
                        assert(self.spec_values() =~= before_self) by {
                            assert forall|k: int| 0 <= k < old_order.len() implies self.spec_values()[k]
                                == before_self[k] by {
                                assert(old_order[k] < elem);
                            }
                        }
                    }
                    self.insert(elem);
                    proof {
                        let l = before_other.len();
                        assert(self.spec_values() =~= seq![before_other.last()] + before_self);
                        assert(moved.subrange(l - 1, moved.len() as int) =~= seq![moved[l - 1]]
                            + moved.subrange(l as int, moved.len() as int));
                        assert(before_other.last() == moved[l - 1]);
                        assert(other.spec_values() =~= moved.subrange(0, l - 1));
                    }
                },
                None => {
                    proof {
                        assert(other.spec_values() =~= Seq::<T>::empty());
                        assert(moved.subrange(0, moved.len() as int) =~= moved);
                    }
                    return;
                },
            }
        }
    }

    /// Iterator over the payloads of the elements, in order.
    pub fn iter(&self) -> (iter: ListIterator<'_, T>)
        requires
            self.well_formed(),
            self.spec_initialized(),
        ensures
            iter.well_formed(),
            iter.spec_remaining() == self.spec_values(),
    {
        let iter = ListIterator { list: self, current: LIST_HEAD, index: Ghost(0) };
        proof {
            assert(self.spec_values().subrange(0, self.spec_values().len() as int)
                =~= self.spec_values());
        }
        iter
    }

    /// Iterator over the elements, in order, for access to their payloads through
    /// [Self::payload_mut].
    pub fn iter_mut(&self) -> (iter: ListMutIterator)
        requires
            self.well_formed(),
            self.spec_initialized(),
        ensures
            iter.spec_order() == self.spec_order(),
            iter.spec_remaining() == self.spec_order(),
            iter.well_formed(),
    {
        let iter = ListMutIterator { current: LIST_HEAD, index: Ghost(0), order: Ghost(self.order@) };
        proof {
            assert(self.order@.subrange(0, self.order@.len() as int) =~= self.order@);
        }
        iter
    }

    /// The payload of the element `elem`, for modification.
    pub fn payload_mut(&mut self, elem: usize) -> (r: &mut T)
        requires
            old(self).well_formed(),
            elem < old(self).spec_nodes(),
            old(self).spec_payload(elem) is Some,
        ensures
            Some(*r) == old(self).spec_payload(elem),
            final(self).spec_payload(elem) == Some(*final(r)),
            forall|i: usize|
                i != elem && i < old(self).spec_nodes() ==> final(self).spec_payload(i) == old(
                    self,
                ).spec_payload(i),
            final(self).spec_order() == old(self).spec_order(),
            final(self).spec_nodes() == old(self).spec_nodes(),
            final(self).spec_initialized() == old(self).spec_initialized(),
            final(self).well_formed(),
    {
        self.payloads[elem].as_mut().unwrap()
    }

    /// The payload of the element `elem`.
    pub fn payload(&self, elem: usize) -> (r: &T)
        requires
            self.well_formed(),
            elem < self.spec_nodes(),
            self.spec_payload(elem) is Some,
        ensures
            Some(*r) == self.spec_payload(elem),
    {
        self.payloads[elem].as_ref().unwrap()
    }
}

/// Iterator over the payloads of the elements of a list, in order.
pub struct ListIterator<'l, T> {
    list: &'l List<T>,
    current: usize,
    index: Ghost<int>,
}

impl<'l, T> ListIterator<'l, T> {
    /// The payloads still to be returned.
    pub closed spec fn spec_remaining(&self) -> Seq<T> {
        self.list.spec_values().subrange(self.index@, self.list.spec_values().len() as int)
    }

    /// The iterator stands after the first `index` elements of a well-formed list.
    pub closed spec fn well_formed(&self) -> bool {
        &&& self.list.well_formed()
        &&& self.list.spec_initialized()
        &&& 0 <= self.index@ <= self.list.spec_order().len()
        &&& self.index@ == 0 ==> self.current == LIST_HEAD
        &&& self.index@ > 0 ==> self.current == self.list.spec_order()[self.index@ - 1]
    }

    /// The next payload, if one is left.
    pub fn next(&mut self) -> (r: Option<&'l T>)
        requires
            old(self).well_formed(),
        ensures
            final(self).well_formed(),
            old(self).spec_remaining().len() == 0 ==> r is None && final(self).spec_remaining()
                == old(self).spec_remaining(),
            old(self).spec_remaining().len() > 0 ==> (r matches Some(v) && *v == old(
                self,
            ).spec_remaining()[0] && final(self).spec_remaining() == old(
                self,
            ).spec_remaining().drop_first()),
    {
        let list = self.list;
        let ghost o = list.order@;
        let ghost k = self.index@;
        proof {
            if k > 0 {
                assert(list.links@[o[k - 1] as int] is Some);
            }
        }
        let link = list.links[self.current].unwrap();
        let next = link.next;
        if next == LIST_HEAD {
            proof {
                if k < o.len() {
                    assert(1 <= o[k]);
                }
            }
            None
        } else {
            proof {
                assert(k < o.len());
                assert(list.payloads@[o[k] as int] is Some);
            }
            let value = list.payloads[next].as_ref().unwrap();
            self.current = next;
            self.index = Ghost(k + 1);
            proof {
                assert(self.spec_remaining() =~= old(self).spec_remaining().drop_first());
            }
            Some(value)
        }
    }
}

/// Iterator over the elements of a list, in order; it reads the list given to each step,
/// which must have the same elements as when the iterator was made.
pub struct ListMutIterator {
    current: usize,
    index: Ghost<int>,
    order: Ghost<Seq<usize>>,
}

impl ListMutIterator {
    /// The elements of the list the iterator walks.
    pub closed spec fn spec_order(&self) -> Seq<usize> {
        self.order@
    }

    /// The elements still to be returned.
    pub closed spec fn spec_remaining(&self) -> Seq<usize> {
        self.order@.subrange(self.index@, self.order@.len() as int)
    }

    /// The iterator stands after the first `index` elements.
    pub closed spec fn well_formed(&self) -> bool {
        &&& 0 <= self.index@ <= self.order@.len()
        &&& self.index@ == 0 ==> self.current == LIST_HEAD
        &&& self.index@ > 0 ==> self.current == self.order@[self.index@ - 1]
    }

    /// The next element of `list`, if one is left.
    pub fn next<T>(&mut self, list: &List<T>) -> (r: Option<usize>)
        requires
            old(self).well_formed(),
            list.well_formed(),
            list.spec_initialized(),
            list.spec_order() == old(self).spec_order(),
        ensures
            final(self).well_formed(),
            final(self).spec_order() == old(self).spec_order(),
            old(self).spec_remaining().len() == 0 ==> r is None && final(self).spec_remaining()
                == old(self).spec_remaining(),
            old(self).spec_remaining().len() > 0 ==> r == Some(old(self).spec_remaining()[0])
                && final(self).spec_remaining() == old(self).spec_remaining().drop_first(),
    {
        let ghost o = self.order@;
        let ghost k = self.index@;
        proof {
            if k > 0 {
                assert(list.links@[o[k - 1] as int] is Some);
            }
        }
        let link = list.links[self.current].unwrap();
        let next = link.next;
        if next == LIST_HEAD {
            proof {
                if k < o.len() {
                    assert(1 <= o[k]);
                }
            }
            None
        } else {
            proof {
                assert(k < o.len());
            }
            self.current = next;
            self.index = Ghost(k + 1);
            proof {
                assert(self.spec_remaining() =~= old(self).spec_remaining().drop_first());
            }
            Some(next)
        }
    }
}

} // verus!

verus! {

/// Removing an element just inserted at the front gives back the previous elements.
pub proof fn lemma_insert_then_remove(order: Seq<usize>, elem: usize)
    requires
        !order.contains(elem),
    ensures
        (seq![elem] + order).remove((seq![elem] + order).index_of(elem)) == order,
{
    let s = seq![elem] + order;
    assert(s[0] == elem);
    assert(s.contains(elem));
    let i = s.index_of(elem);
    if i != 0 {
        assert(s[i] == order[i - 1]);
        assert(order.contains(order[i - 1]));
    }
    assert(s.remove(0) =~= order);
}

/// Removing an element just appended at the back gives back the previous elements.
pub proof fn lemma_append_then_remove(order: Seq<usize>, elem: usize)
    requires
        !order.contains(elem),
    ensures
        order.push(elem).remove(order.push(elem).index_of(elem)) == order,
{
    let s = order.push(elem);
    assert(s[order.len() as int] == elem);
    assert(s.contains(elem));
    let i = s.index_of(elem);
    if i != order.len() {
        assert(s[i] == order[i]);
        assert(order.contains(order[i]));
    }
    assert(s.remove(order.len() as int) =~= order);
}

} // verus!
