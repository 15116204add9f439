//! The registry of loaded modules: a circular doubly-linked list whose nodes
//! live in an arena and name each other by index.

use vstd::prelude::*;

verus! {

/// A node of the registry: the indices of its neighbours in the arena of the
/// list that it belongs to.
#[derive(Clone, Copy, Debug, PartialEq, Eq, Structural)]
pub struct ModuleRuntimeLink {
    pub prev: usize,
    pub next: usize,
}

impl ModuleRuntimeLink {
    /// Makes the node at index `this` a ring of its own.
    pub fn initialize(&mut self, this: usize)
        ensures
            final(self).prev == this,
            final(self).next == this,
    {
        self.next = this;
        self.prev = this;
    }

    /// Whether the node at index `this` is its own predecessor, which is the
    /// case exactly for the only node of a ring.
    pub fn has_prev(&self, this: usize) -> (alone: bool)
        ensures
            alone == (self.prev == this),
    {
        self.prev == this
    }
}

/// A list of modules. Node 0 of its arena is the sentinel that roots the
/// ring; every other node stands for one entry of the list and carries the
/// handle of the module that was entered.
pub struct ModuleObjectList {
    nodes: Vec<ModuleRuntimeLink>,
    owners: Vec<usize>,
    ring: Ghost<Seq<usize>>,
    place: Ghost<Seq<int>>,
}

impl View for ModuleObjectList {
    type V = Seq<usize>;

    /// The handles of the modules in the list, in forward order.
    closed spec fn view(&self) -> Seq<usize> {
        Seq::new(
            (self.ring@.len() - 1) as nat,
            |i: int| self.owners@[self.ring@[i + 1] - 1],
        )
    }
}

impl ModuleObjectList {
    /// The position that follows position `i` on a ring of `n` nodes.
    pub open spec fn after(i: int, n: int) -> int {
        if i + 1 == n {
            0
        } else {
            i + 1
        }
    }

    /// The position that precedes position `i` on a ring of `n` nodes.
    pub open spec fn before(i: int, n: int) -> int {
        if i == 0 {
            n - 1
        } else {
            i - 1
        }
    }

    /// The list is a single ring through the sentinel: following `next` from
    /// the sentinel visits every node of the arena once and returns to the
    /// sentinel, and `prev` leads back the same way.
    pub closed spec fn wf(&self) -> bool {
        let n = self.nodes@.len() as int;
        &&& n >= 1
        &&& self.owners@.len() + 1 == n
        &&& self.ring@.len() == n
        &&& self.place@.len() == n
        &&& self.ring@[0] == 0
        &&& forall|i: int|
            0 <= i < n ==> 0 <= #[trigger] self.ring@[i] < n && self.place@[self.ring@[i] as int]
                == i
        &&& forall|k: int|
            0 <= k < n ==> 0 <= #[trigger] self.place@[k] < n && self.ring@[self.place@[k]] == k
        &&& forall|k: int|
            0 <= k < n ==> (#[trigger] self.nodes@[k]).next == self.ring@[Self::after(
                self.place@[k],
                n,
            )] && self.nodes@[k].prev == self.ring@[Self::before(self.place@[k], n)]
    }

    /// The number of nodes in the arena, the sentinel included.
    pub closed spec fn node_count(&self) -> nat {
        self.nodes@.len()
    }

    /// The position of node `node` on the ring, counted forward from the
    /// sentinel, which is at position 0. The entry at position `p > 0` is
    /// entry `p - 1` of the list.
    pub closed spec fn position(&self, node: usize) -> int {
        self.place@[node as int]
    }

    /// The node at position `position` of the ring.
    pub closed spec fn node_at(&self, position: int) -> usize {
        self.ring@[position]
    }

    /// The links of node `node`.
    pub closed spec fn links(&self, node: usize) -> ModuleRuntimeLink {
        self.nodes@[node as int]
    }

    /// Every node has a position on the ring, positions and nodes determine
    /// each other, each node's links name its neighbours on the ring, and the
    /// list has one entry for each node but the sentinel.
    pub proof fn lemma_ring(&self)
        requires
            self.wf(),
        ensures
            self.node_count() >= 1,
            self@.len() + 1 == self.node_count(),
            self.position(0) == 0,
            forall|node: usize|
                node < self.node_count() ==> 0 <= #[trigger] self.position(node)
                    < self.node_count() && self.node_at(self.position(node)) == node,
            forall|p: int|
                0 <= p < self.node_count() ==> #[trigger] self.node_at(p) < self.node_count()
                    && self.position(self.node_at(p)) == p,
            forall|node: usize|
                node < self.node_count() ==> (#[trigger] self.links(node)).next == self.node_at(
                    Self::after(self.position(node), self.node_count() as int),
                ) && self.links(node).prev == self.node_at(
                    Self::before(self.position(node), self.node_count() as int),
                ),
    {
    }

    /// An empty list: the sentinel alone.
    pub fn new() -> (list: Self)
        ensures
            list.wf(),
            list@ == Seq::<usize>::empty(),
            list.node_count() == 1,
    {
        let mut nodes: Vec<ModuleRuntimeLink> = Vec::new();
        nodes.push(ModuleRuntimeLink { prev: 0, next: 0 });
        let ghost ring = Seq::<usize>::empty().push(0);
        let ghost place = Seq::<int>::empty().push(0);
        let list = ModuleObjectList { nodes, owners: Vec::new(), ring: Ghost(ring), place: Ghost(place) };
        list
    }

    /// Empties the list: the sentinel becomes a ring of its own.
    pub fn initialize(&mut self)
        ensures
            final(self).wf(),
            final(self)@ == Seq::<usize>::empty(),
            final(self).node_count() == 1,
    {
        *self = Self::new();
    }

    /// Enters module `other` directly after the node `anchor` and returns
    /// the node that stands for the new entry.
    pub fn link_after(&mut self, anchor: usize, other: usize) -> (node: usize)
        requires
            old(self).wf(),
            anchor < old(self).node_count(),
        ensures
            final(self).wf(),
            final(self)@ == old(self)@.insert(old(self).position(anchor), other),
            node == old(self).node_count(),
            final(self).node_count() == old(self).node_count() + 1,
            final(self).position(node) == old(self).position(anchor) + 1,
            forall|k: usize|
                k < old(self).node_count() ==> #[trigger] final(self).position(k) == if old(
                    self,
                ).position(k) > old(self).position(anchor) {
                    old(self).position(k) + 1
                } else {
                    old(self).position(k)
                },
    {
        let node = self.nodes.len();
        let next = self.nodes[anchor].next;
        let ghost n = node as int;
        let ghost p = self.place@[anchor as int];
        let ghost ring = self.ring@;
        let ghost place = self.place@;
        self.nodes.push(ModuleRuntimeLink { prev: anchor, next });
        self.owners.push(other);
        self.nodes[anchor].next = node;
        self.nodes[next].prev = node;
        let ghost grown_ring = ring.insert(p + 1, node);
        let ghost grown_place = Seq::new(
            (n + 1) as nat,
            |k: int|
                if k == n {
                    p + 1
                } else if place[k] > p {
                    place[k] + 1
                } else {
                    place[k]
                },
        );
        self.ring = Ghost(grown_ring);
        self.place = Ghost(grown_place);
        node
    }

    /// Enters module `other` directly before the node `anchor` and returns
    /// the node that stands for the new entry. Before the sentinel is the
    /// end of the list.
    pub fn link_before(&mut self, anchor: usize, other: usize) -> (node: usize)
        requires
            old(self).wf(),
            anchor < old(self).node_count(),
        ensures
            final(self).wf(),
            final(self)@ == old(self)@.insert(
                Self::before(old(self).position(anchor), old(self).node_count() as int),
                other,
            ),
            node == old(self).node_count(),
            final(self).node_count() == old(self).node_count() + 1,
            final(self).position(node) == Self::before(
                old(self).position(anchor),
                old(self).node_count() as int,
            ) + 1,
            forall|k: usize|
                k < old(self).node_count() ==> #[trigger] final(self).position(k) == if old(
                    self,
                ).position(k) > Self::before(
                    old(self).position(anchor),
                    old(self).node_count() as int,
                ) {
                    old(self).position(k) + 1
                } else {
                    old(self).position(k)
                },
    {
        proof {
            self.lemma_ring();
        }
        let prev = self.nodes[anchor].prev;
        self.link_after(prev, other)
    }

    /// Enters module `other` directly after the sentinel: at the front of
    /// the list.
    pub fn link(&mut self, other: usize) -> (node: usize)
        requires
            old(self).wf(),
        ensures
            final(self).wf(),
            final(self)@ == seq![other] + old(self)@,
            node == old(self).node_count(),
            final(self).node_count() == old(self).node_count() + 1,
            final(self).position(node) == 1,
            final(self).position(0) == 0,
            forall|k: usize|
                0 < k < old(self).node_count() ==> #[trigger] final(self).position(k) == old(
                    self,
                ).position(k) + 1,
    {
        proof {
            self.lemma_ring();
        }
        self.link_after(0, other)
    }

    /// Enters module `other` directly before the sentinel: at the end of the
    /// list.
    pub fn link_reverse(&mut self, other: usize) -> (node: usize)
        requires
            old(self).wf(),
        ensures
            final(self).wf(),
            final(self)@ == old(self)@.push(other),
            node == old(self).node_count(),
            final(self).node_count() == old(self).node_count() + 1,
            final(self).position(node) == old(self).node_count(),
            forall|k: usize|
                k < old(self).node_count() ==> #[trigger] final(self).position(k) == old(
                    self,
                ).position(k),
    {
        proof {
            self.lemma_ring();
        }
        self.link_before(0, other)
    }

    /// Whether the list has no entry: the sentinel is its own predecessor.
    pub fn is_empty(&self) -> (empty: bool)
        requires
            self.wf(),
        ensures
            empty == (self@.len() == 0),
    {
        proof {
            self.lemma_ring();
        }
        self.nodes[0].has_prev(0)
    }

    /// The number of nodes in the arena, the sentinel included.
    pub fn nodes(&self) -> (count: usize)
        ensures
            count == self.node_count(),
    {
        self.nodes.len()
    }

    /// The links of node `node`.
    pub fn link_of(&self, node: usize) -> (link: ModuleRuntimeLink)
        requires
            node < self.node_count(),
        ensures
            link == self.links(node),
    {
        self.nodes[node]
    }

    /// The handle of the module that node `node` stands for.
    pub fn owner(&self, node: usize) -> (module: usize)
        requires
            self.wf(),
            0 < node < self.node_count(),
        ensures
            module == self@[self.position(node) - 1],
    {
        proof {
            self.lemma_ring();
        }
        self.owners[node - 1]
    }
}

/// Walks a list entry by entry, forward or backward, from the sentinel round
/// to the sentinel.
#[derive(Clone, Copy, Debug)]
pub struct ModuleRuntimeIter {
    current: usize,
    is_reverse: bool,
}

impl ModuleRuntimeIter {
    /// The walk stands at a node of `list`.
    pub closed spec fn wf(&self, list: &ModuleObjectList) -> bool {
        self.current < list.node_count()
    }

    /// Whether the walk goes backward.
    pub closed spec fn reversed(&self) -> bool {
        self.is_reverse
    }

    /// The handles that the walk has yet to yield, in the order in which it
    /// yields them.
    pub closed spec fn remaining(&self, list: &ModuleObjectList) -> Seq<usize> {
        let p = list.position(self.current);
        if self.is_reverse {
            list@.subrange(0, p).reverse()
        } else if p == 0 {
            Seq::empty()
        } else {
            list@.subrange(p - 1, list@.len() as int)
        }
    }

    /// A walk over `list` that starts next to the sentinel: at the first
    /// entry, or at the last where `is_reverse` holds.
    pub fn new(list: &ModuleObjectList, is_reverse: bool) -> (walk: Self)
        requires
            list.wf(),
        ensures
            walk.wf(list),
            walk.reversed() == is_reverse,
            walk.remaining(list) == if is_reverse {
                list@.reverse()
            } else {
                list@
            },
    {
        proof {
            list.lemma_ring();
        }
        let walk = ModuleRuntimeIter { current: Self::update_next(list, 0, is_reverse), is_reverse };
        walk
    }

    /// The node that follows `node` in the direction of the walk.
    fn update_next(list: &ModuleObjectList, node: usize, is_reverse: bool) -> (next: usize)
        requires
            list.wf(),
            node < list.node_count(),
        ensures
            next < list.node_count(),
            list.position(next) == if is_reverse {
                ModuleObjectList::before(list.position(node), list.node_count() as int)
            } else {
                ModuleObjectList::after(list.position(node), list.node_count() as int)
            },
    {
        proof {
            list.lemma_ring();
        }
        let link = list.link_of(node);
        if is_reverse {
            link.prev
        } else {
            link.next
        }
    }

    /// The module at which the walk stands, after which it moves on; `None`
    /// once the walk is back at the sentinel.
    pub fn next(&mut self, list: &ModuleObjectList) -> (module: Option<usize>)
        requires
            list.wf(),
            old(self).wf(list),
        ensures
            final(self).wf(list),
            final(self).reversed() == old(self).reversed(),
            match module {
                Some(handle) => {
                    &&& old(self).remaining(list).len() > 0
                    &&& handle == old(self).remaining(list)[0]
                    &&& final(self).remaining(list) == old(self).remaining(list).skip(1)
                },
                None => {
                    &&& old(self).remaining(list).len() == 0
                    &&& *final(self) == *old(self)
                },
            },
    {
        proof {
            list.lemma_ring();
        }
        if self.current == 0 {
            None
        } else {
            let handle = list.owner(self.current);
            self.current = Self::update_next(list, self.current, self.is_reverse);
            Some(handle)
        }
    }
}

impl ModuleObjectList {
    /// The handles of the modules in the list: in forward order, or in
    /// backward order where `is_reverse` holds.
    pub fn modules(&self, is_reverse: bool) -> (handles: Vec<usize>)
        requires
            self.wf(),
        ensures
            handles@ == if is_reverse {
                self@.reverse()
            } else {
                self@
            },
    {
        let mut handles: Vec<usize> = Vec::new();
        let mut walk = ModuleRuntimeIter::new(self, is_reverse);
        let ghost all = walk.remaining(self);
        loop
            invariant
                self.wf(),
                walk.wf(self),
                handles@ + walk.remaining(self) == all,
            ensures
                handles@ == all,
            decreases walk.remaining(self).len(),
        {
            match walk.next(self) {
                Some(handle) => {
                    handles.push(handle);
                },
                None => {
                    break ;
                },
            }
        }
        handles
    }
}

/// The list after the modules `handles` have been entered at its front,
/// one after the other.
pub open spec fn linked(list: Seq<usize>, handles: Seq<usize>) -> Seq<usize>
    decreases handles.len(),
{
    if handles.len() == 0 {
        list
    } else {
        linked(seq![handles[0]] + list, handles.skip(1))
    }
}

/// The list after the modules `handles` have been entered at its end, one
/// after the other.
pub open spec fn linked_reverse(list: Seq<usize>, handles: Seq<usize>) -> Seq<usize>
    decreases handles.len(),
{
    if handles.len() == 0 {
        list
    } else {
        linked_reverse(list.push(handles[0]), handles.skip(1))
    }
}

/// Entering modules at the front of a list puts them before what the list
/// held, the last entered first.
pub proof fn lemma_linked(list: Seq<usize>, handles: Seq<usize>)
    ensures
        linked(list, handles) == handles.reverse() + list,
    decreases handles.len(),
{
    if handles.len() > 0 {
        lemma_linked(seq![handles[0]] + list, handles.skip(1));
    }
}

/// Entering modules at the end of a list puts them behind what the list
/// held, in the order in which they were entered.
pub proof fn lemma_linked_reverse(list: Seq<usize>, handles: Seq<usize>)
    ensures
        linked_reverse(list, handles) == list + handles,
    decreases handles.len(),
{
    if handles.len() > 0 {
        lemma_linked_reverse(list.push(handles[0]), handles.skip(1));
    }
}

/// After N modules have been entered at the end of an empty list, the list
/// holds exactly these N, forward in the order in which they were entered
/// and backward in the reverse of it. Entered at the front instead, they
/// stand forward in the reverse order and backward in the order in which
/// they were entered. An empty list holds nothing in either direction.
pub proof fn lemma_registry_order(handles: Seq<usize>)
    ensures
        linked_reverse(Seq::empty(), handles) == handles,
        linked_reverse(Seq::empty(), handles).reverse() == handles.reverse(),
        linked_reverse(Seq::empty(), handles).len() == handles.len(),
        linked(Seq::empty(), handles) == handles.reverse(),
        linked(Seq::empty(), handles).reverse() == handles,
        linked(Seq::empty(), handles).len() == handles.len(),
        Seq::<usize>::empty().reverse() == Seq::<usize>::empty(),
{
    lemma_linked_reverse(Seq::empty(), handles);
    lemma_linked(Seq::empty(), handles);
}

} // verus!
