//! The table of live queue pairs.
//!
//! Callers name a queue pair by a small identifier. The registry maps the
//! identifiers in use to the handles that the controller gave out, never
//! holds more than its capacity, and always assigns the lowest identifier
//! that is free.

use vstd::prelude::*;
use vstd::set_lib::*;
use crate::table::WordTable;

verus! {

/// How many queue pairs a driver keeps at most.
pub const MAX_NUMBER_OF_QUEUE_PAIRS: usize = 2;

/// The identifier of a live queue pair.
#[derive(Debug, Hash, PartialEq, Eq, Structural, PartialOrd, Ord, Clone, Copy)]
pub struct IoQueuePairId(pub usize);

impl From<usize> for IoQueuePairId {
    fn from(value: usize) -> (id: Self)
        ensures
            id == IoQueuePairId(value),
    {
        IoQueuePairId(value)
    }
}

impl vstd::std_specs::convert::FromSpecImpl<usize> for IoQueuePairId {
    open spec fn obeys_from_spec() -> bool {
        true
    }

    open spec fn from_spec(value: usize) -> Self {
        IoQueuePairId(value)
    }
}

impl From<IoQueuePairId> for usize {
    fn from(id: IoQueuePairId) -> (value: Self)
        ensures
            value == id.0,
    {
        id.0
    }
}

impl vstd::std_specs::convert::FromSpecImpl<IoQueuePairId> for usize {
    open spec fn obeys_from_spec() -> bool {
        true
    }

    open spec fn from_spec(id: IoQueuePairId) -> Self {
        id.0
    }
}

/// What the controller hands out for a queue pair: the number of the queue
/// pair on the controller and the index of the namespace it is bound to.
#[derive(Debug, PartialEq, Eq, Structural, Clone, Copy)]
pub struct QueuePairHandle {
    pub queue: usize,
    pub namespace: usize,
}

impl QueuePairHandle {
    /// The handle that a pair of words stands for.
    pub open spec fn spec_from_words(words: (usize, usize)) -> QueuePairHandle {
        QueuePairHandle { queue: words.0, namespace: words.1 }
    }
}

/// Whether every identifier below `capacity` is in use.
pub open spec fn all_in_use(ids: Set<usize>, capacity: usize) -> bool {
    forall|id: usize| id < capacity ==> ids.contains(id)
}

/// Whether `id` is the lowest identifier below `capacity` that is free.
pub open spec fn is_lowest_free(ids: Set<usize>, capacity: usize, id: usize) -> bool {
    &&& id < capacity
    &&& !ids.contains(id)
    &&& forall|lower: usize| lower < id ==> ids.contains(lower)
}

/// The identifiers below `bound`.
pub open spec fn ids_below(bound: usize) -> Set<usize> {
    Set::new(|id: usize| id < bound)
}

/// There are `bound` identifiers below `bound`.
pub proof fn lemma_ids_below(bound: usize)
    ensures
        ids_below(bound).finite(),
        ids_below(bound).len() == bound,
    decreases bound,
{
    if bound == 0 {
        assert(ids_below(bound) =~= Set::<usize>::empty());
    } else {
        let lower = (bound - 1) as usize;
        lemma_ids_below(lower);
        assert(ids_below(bound) =~= ids_below(lower).insert(lower));
    }
}

/// A set of identifiers below `capacity` has at most `capacity` members, and
/// has exactly `capacity` of them only if every identifier is in use.
pub proof fn lemma_full_iff_all_in_use(ids: Set<usize>, capacity: usize)
    requires
        ids.finite(),
        forall|id: usize| ids.contains(id) ==> id < capacity,
    ensures
        ids.len() <= capacity,
        ids.len() == capacity <==> all_in_use(ids, capacity),
{
    lemma_ids_below(capacity);
    lemma_len_subset(ids, ids_below(capacity));
    if all_in_use(ids, capacity) {
        assert(ids =~= ids_below(capacity));
    }
    if ids.len() == capacity {
        lemma_subset_equality(ids, ids_below(capacity));
    }
}

/// The lowest free identifier is unique.
pub proof fn lemma_lowest_free_unique(ids: Set<usize>, capacity: usize, a: usize, b: usize)
    requires
        is_lowest_free(ids, capacity, a),
        is_lowest_free(ids, capacity, b),
    ensures
        a == b,
{
}

/// While exactly the identifiers below `count` are in use, the next one
/// assigned is `count`: a fresh registry hands out 0, 1, 2 and so on, all
/// distinct and all below the capacity.
pub proof fn lemma_assigned_in_order(capacity: usize, count: usize, id: usize)
    requires
        count < capacity,
        is_lowest_free(ids_below(count), capacity, id),
    ensures
        id == count,
        ids_below(count).insert(id) == ids_below((count + 1) as usize),
{
    if id > count {
        assert(ids_below(count).contains(count));
    }
    assert(ids_below(count).insert(id) =~= ids_below((count + 1) as usize));
}

/// After an identifier has been given up, the next one assigned is the
/// lowest that is free, which is never above the one given up.
pub proof fn lemma_reuse_after_delete(ids: Set<usize>, capacity: usize, deleted: usize, id: usize)
    requires
        forall|used: usize| ids.contains(used) ==> used < capacity,
        ids.contains(deleted),
        is_lowest_free(ids.remove(deleted), capacity, id),
    ensures
        id <= deleted,
        all_in_use(ids, capacity) ==> id == deleted,
{
    if id > deleted {
        assert(ids.remove(deleted).contains(deleted));
    }
    if all_in_use(ids, capacity) {
        assert(ids.contains(id));
    }
}

/// The queue pairs that a table of word pairs stands for.
pub open spec fn handles(entries: Map<usize, (usize, usize)>) -> Map<usize, QueuePairHandle> {
    Map::new(
        |id: usize| entries.contains_key(id),
        |id: usize| QueuePairHandle::spec_from_words(entries[id]),
    )
}

/// A bounded table from identifiers to queue pair handles.
pub struct QueuePairRegistry {
    capacity: usize,
    io_queue_pairs: WordTable,
}

impl QueuePairRegistry {
    /// The live queue pairs: the handle of each, by its identifier.
    pub closed spec fn view(&self) -> Map<usize, QueuePairHandle> {
        handles(self.io_queue_pairs.entries())
    }

    /// The most queue pairs the registry holds at a time.
    pub closed spec fn spec_capacity(&self) -> usize {
        self.capacity
    }

    /// Every identifier in use is below the capacity.
    pub closed spec fn wf(&self) -> bool {
        &&& self.io_queue_pairs.entries().dom().finite()
        &&& forall|id: usize| #[trigger]
            self.io_queue_pairs.entries().contains_key(id) ==> id < self.capacity
    }

    /// What `wf` says, in terms of the view.
    pub proof fn lemma_wf(&self)
        requires
            self.wf(),
        ensures
            self@.dom().finite(),
            self@.dom().len() <= self.spec_capacity(),
            forall|id: usize| self@.contains_key(id) ==> id < self.spec_capacity(),
            self@.dom().len() == self.spec_capacity() <==> all_in_use(self@.dom(), self.spec_capacity()),
    {
        assert(self@.dom() =~= self.io_queue_pairs.entries().dom());
        lemma_full_iff_all_in_use(self@.dom(), self.capacity);
    }

    /// An empty registry for at most `capacity` queue pairs.
    pub fn new(capacity: usize) -> (registry: Self)
        ensures
            registry.wf(),
            registry.spec_capacity() == capacity,
            registry@ == Map::<usize, QueuePairHandle>::empty(),
    {
        let registry = QueuePairRegistry { capacity, io_queue_pairs: WordTable::new() };
        assert(registry@ =~= Map::<usize, QueuePairHandle>::empty());
        registry
    }

    /// The most queue pairs the registry holds at a time.
    pub fn capacity(&self) -> (capacity: usize)
        ensures
            capacity == self.spec_capacity(),
    {
        self.capacity
    }

    /// The number of live queue pairs.
    pub fn len(&self) -> (count: usize)
        requires
            self.wf(),
        ensures
            count == self@.dom().len(),
            count <= self.spec_capacity(),
    {
        proof {
            self.lemma_wf();
            assert(self@.dom() =~= self.io_queue_pairs.entries().dom());
        }
        self.io_queue_pairs.len()
    }

    /// Whether the registry holds as many queue pairs as it can.
    pub fn is_full(&self) -> (full: bool)
        requires
            self.wf(),
        ensures
            full == (self@.dom().len() == self.spec_capacity()),
            full == all_in_use(self@.dom(), self.spec_capacity()),
    {
        proof {
            self.lemma_wf();
        }
        self.len() == self.capacity
    }

    /// The handle of the queue pair that `id` names, if it is live.
    pub fn get(&self, id: &IoQueuePairId) -> (handle: Option<QueuePairHandle>)
        ensures
            handle == (if self@.contains_key(id.0) {
                Some(self@[id.0])
            } else {
                None
            }),
    {
        match self.io_queue_pairs.get(id.0) {
            Some(words) => Some(QueuePairHandle { queue: words.0, namespace: words.1 }),
            None => None,
        }
    }

    /// The lowest identifier that is free, or `None` when the registry is full.
    pub fn lowest_free_id(&self) -> (id: Option<IoQueuePairId>)
        requires
            self.wf(),
        ensures
            match id {
                Some(id) => is_lowest_free(self@.dom(), self.spec_capacity(), id.0),
                None => all_in_use(self@.dom(), self.spec_capacity()),
            },
    {
        let mut candidate: usize = 0;
        while candidate < self.capacity
            invariant
                candidate <= self.capacity,
                forall|lower: usize| lower < candidate ==> self@.dom().contains(lower),
            decreases self.capacity - candidate,
        {
            if !self.io_queue_pairs.contains_key(candidate) {
                return Some(IoQueuePairId(candidate));
            }
            candidate += 1;
        }
        None
    }

    /// Takes a handle into the registry under the lowest identifier that is
    /// free and returns that identifier.
    ///
    /// A full registry takes nothing: the result is `None` and the registry
    /// is unchanged.
    pub fn register(&mut self, handle: QueuePairHandle) -> (id: Option<IoQueuePairId>)
        requires
            old(self).wf(),
        ensures
            final(self).wf(),
            final(self).spec_capacity() == old(self).spec_capacity(),
            id is None <==> old(self)@.dom().len() == old(self).spec_capacity(),
            match id {
                Some(id) => {
                    &&& is_lowest_free(old(self)@.dom(), old(self).spec_capacity(), id.0)
                    &&& final(self)@ == old(self)@.insert(id.0, handle)
                },
                None => final(self)@ == old(self)@,
            },
    {
        proof {
            self.lemma_wf();
        }
        match self.lowest_free_id() {
            Some(id) => {
                self.io_queue_pairs.insert(id.0, (handle.queue, handle.namespace));
                assert(self@ =~= old(self)@.insert(id.0, handle));
                Some(id)
            },
            None => None,
        }
    }

    /// Removes the queue pair that `id` names and returns its handle.
    ///
    /// An identifier that names no live queue pair removes nothing: the
    /// result is `None` and the registry is unchanged.
    pub fn unregister(&mut self, id: IoQueuePairId) -> (handle: Option<QueuePairHandle>)
        requires
            old(self).wf(),
        ensures
            final(self).wf(),
            final(self).spec_capacity() == old(self).spec_capacity(),
            handle is Some <==> old(self)@.contains_key(id.0),
            match handle {
                Some(handle) => {
                    &&& handle == old(self)@[id.0]
                    &&& final(self)@ == old(self)@.remove(id.0)
                },
                None => final(self)@ == old(self)@,
            },
    {
        match self.io_queue_pairs.remove(id.0) {
            Some(words) => {
                assert(self@ =~= old(self)@.remove(id.0));
                Some(QueuePairHandle { queue: words.0, namespace: words.1 })
            },
            None => {
                assert(self.io_queue_pairs.entries() =~= old(self).io_queue_pairs.entries());
                None
            },
        }
    }
}

} // verus!
