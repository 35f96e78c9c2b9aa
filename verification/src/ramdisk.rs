//! A storage controller whose namespaces live in ordinary memory.
//!
//! A [`RamDisk`] answers every request at once and fails only where the
//! request itself is at fault, or where memory runs out: a transfer beyond
//! the end of a namespace, a queue with no entries or with more than the
//! controller allows, a queue for which the allocator has no memory. Like a
//! controller of hardware it keeps its queues in memory that it asks its
//! allocator for, and gives that memory back when a queue pair is torn
//! down. It serves where no device is at hand, and shows that the contract
//! of [`Controller`](crate::controller::Controller) can be met.

use vstd::prelude::*;
use crate::controller::{
    Controller,
    ControllerData,
    ControllerError,
    Namespace,
    in_range,
    storage_read,
    storage_write,
};
use crate::allocator::NvmeAllocator;
use crate::layout::DmaLayout;
use crate::memory::DeviceMemory;
use crate::registry::QueuePairHandle;

verus! {

/// How many bytes of queue memory one entry of a queue pair takes: an entry
/// of the submission queue and one of the completion queue.
pub const QUEUE_ENTRY_SIZE: usize = 80;

/// A live queue pair and the address of the memory that holds its queues.
pub struct QueuePair {
    pub handle: QueuePairHandle,
    pub memory: usize,
}

/// The handles of `queue_pairs`, in their order.
pub open spec fn handles_of(queue_pairs: Seq<QueuePair>) -> Seq<QueuePairHandle> {
    queue_pairs.map_values(|queue_pair: QueuePair| queue_pair.handle)
}

/// A controller over namespaces in ordinary memory.
pub struct RamDisk<A: DeviceMemory> {
    allocator: NvmeAllocator<A>,
    namespaces: Vec<Namespace>,
    storage: Vec<Vec<u8>>,
    data: ControllerData,
    queue_pairs: Vec<QueuePair>,
    next_queue: usize,
    transfers: Ghost<nat>,
}

impl<A: DeviceMemory> RamDisk<A> {
    /// The allocator from which the controller takes the memory of its
    /// queues.
    pub closed spec fn allocator(&self) -> NvmeAllocator<A> {
        self.allocator
    }

    /// The allocator holds the memory of the live queue pairs and nothing
    /// else, so that it holds nothing once every queue pair is torn down.
    pub proof fn lemma_queue_memory(&self)
        requires
            self.inv(),
        ensures
            self.allocator().wf(),
            self.allocator()@.dom().finite(),
            self.allocator()@.dom().len() == self.queue_pairs().len(),
            self.queue_pairs() == Set::<QueuePairHandle>::empty() ==> self.allocator()@ == Map::<
                usize,
                DmaLayout,
            >::empty(),
    {
        self.allocator.lemma_wf();
        lemma_counts(self.queue_pairs@, self.allocator@.dom());
        let handles = handles_of(self.queue_pairs@);
        assert forall|handle: QueuePairHandle| self.queue_pairs().contains(handle)
            <==> handles.to_set().contains(handle) by {
            if self.queue_pairs().contains(handle) {
                let i = choose|i: int|
                    0 <= i < self.queue_pairs@.len() && (#[trigger] self.queue_pairs@[i]).handle == handle;
                assert(handles[i] == handle);
            }
            if handles.to_set().contains(handle) {
                let i = choose|i: int| 0 <= i < handles.len() && handles[i] == handle;
                assert(self.queue_pairs@[i].handle == handle);
            }
        }
        assert(self.queue_pairs() =~= handles.to_set());
        if self.queue_pairs() == Set::<QueuePairHandle>::empty() {
            assert(self.allocator@ =~= Map::<usize, DmaLayout>::empty());
        }
    }

    /// What the controller answers: it identifies the namespaces from any
    /// index up to their number; it builds a queue pair that has at least
    /// one entry and no more than the controller allows, as long as the
    /// allocator has memory for its queues; it tears down every queue pair;
    /// and it carries out the transfers that lie within their namespace.
    pub proof fn lemma_answers(&self)
        requires
            self.inv(),
        ensures
            forall|start_index: usize| #[trigger]
                self.identifies(start_index) <==> start_index <= self.namespaces().len(),
            forall|namespace: Namespace, number_of_entries: usize|
                (#[trigger] self.creates(namespace, number_of_entries)) is Some ==> {
                    &&& 0 < number_of_entries <= self.data().max_queue_entries
                    &&& self.allocator().grants((number_of_entries * QUEUE_ENTRY_SIZE) as usize) is Some
                },
            forall|namespace: Namespace, number_of_entries: usize|
                (#[trigger] self.creates(namespace, number_of_entries)) is None ==> {
                    ||| number_of_entries == 0
                    ||| number_of_entries > self.data().max_queue_entries
                    ||| self.allocator().grants((number_of_entries * QUEUE_ENTRY_SIZE) as usize) is None
                    ||| self.queue_pairs_built() == usize::MAX
                },
            forall|handle: QueuePairHandle| #[trigger] self.deletes(handle),
            forall|handle: QueuePairHandle, len: usize, logical_block_address: u64|
                handle.namespace < self.namespaces().len() ==> (#[trigger] self.reads(
                    handle,
                    len,
                    logical_block_address,
                ) <==> in_range(
                    self.storage(handle.namespace),
                    logical_block_address * self.namespaces()[handle.namespace as int].block_size,
                    len as int,
                )),
            forall|handle: QueuePairHandle, len: usize, logical_block_address: u64|
                handle.namespace < self.namespaces().len() ==> (#[trigger] self.writes(
                    handle,
                    len,
                    logical_block_address,
                ) <==> in_range(
                    self.storage(handle.namespace),
                    logical_block_address * self.namespaces()[handle.namespace as int].block_size,
                    len as int,
                )),
    {
    }

    /// How many queue pairs the controller has built so far.
    pub closed spec fn queue_pairs_built(&self) -> usize {
        self.next_queue
    }

    /// A controller with the given limits and no namespace, which takes the
    /// memory of its queues from `allocator`.
    pub fn new(data: ControllerData, allocator: NvmeAllocator<A>) -> (disk: Self)
        requires
            allocator.wf(),
            allocator@ == Map::<usize, DmaLayout>::empty(),
        ensures
            disk.inv(),
            disk.allocator() == allocator,
            disk.data() == data,
            disk.namespaces() == Seq::<Namespace>::empty(),
            disk.queue_pairs() == Set::<QueuePairHandle>::empty(),
            disk.transfers() == 0,
            disk.queue_pairs_built() == 0,
    {
        let disk = RamDisk {
            allocator,
            namespaces: Vec::new(),
            storage: Vec::new(),
            data,
            queue_pairs: Vec::new(),
            next_queue: 0,
            transfers: Ghost(0),
        };
        assert(disk.queue_pairs() =~= Set::<QueuePairHandle>::empty());
        disk
    }

    /// How many allocations hold the queues of the live queue pairs.
    pub fn queue_memory_in_use(&self) -> (count: usize)
        requires
            self.inv(),
        ensures
            count == self.allocator()@.dom().len(),
            count == self.queue_pairs().len(),
    {
        proof {
            self.lemma_queue_memory();
        }
        self.allocator.len()
    }

    /// Adds a namespace of `block_count` blocks of `block_size` bytes, all
    /// of them zero, and returns its index.
    ///
    /// Returns `None`, and adds nothing, when the size of the namespace in
    /// bytes does not fit a machine word.
    pub fn add_namespace(&mut self, block_count: u64, block_size: u64) -> (index: Option<usize>)
        requires
            old(self).inv(),
        ensures
            final(self).inv(),
            final(self).data() == old(self).data(),
            final(self).queue_pairs() == old(self).queue_pairs(),
            final(self).transfers() == old(self).transfers(),
            final(self).allocator() == old(self).allocator(),
            final(self).queue_pairs_built() == old(self).queue_pairs_built(),
            index is Some <==> block_count * block_size <= usize::MAX,
            match index {
                Some(index) => {
                    &&& index == old(self).namespaces().len()
                    &&& final(self).namespaces() == old(self).namespaces().push(
                        Namespace { index, block_count, block_size },
                    )
                    &&& final(self).storage(index) == Seq::new(
                        (block_count * block_size) as nat,
                        |i: int| 0u8,
                    )
                    &&& forall|other: usize|
                        other < index ==> #[trigger] final(self).storage(other) == old(self).storage(other)
                },
                None => *final(self) == *old(self),
            },
    {
        let size = match block_count.checked_mul(block_size) {
            Some(size) => size,
            None => { return None; },
        };
        if size > usize::MAX as u64 {
            return None;
        }
        let index = self.namespaces.len();
        self.namespaces.push(Namespace { index, block_count, block_size });
        self.storage.push(vec![0u8; size as usize]);
        assert(self.storage(index) =~= Seq::new((block_count * block_size) as nat, |i: int| 0u8));
        assert(self.queue_pairs() =~= old(self).queue_pairs());
        Some(index)
    }

    /// The position of `handle` among the live queue pairs, if it is live.
    fn find(&self, handle: QueuePairHandle) -> (found: Option<usize>)
        ensures
            match found {
                Some(i) => i < self.queue_pairs@.len() && self.queue_pairs@[i as int].handle == handle,
                None => forall|j: int|
                    0 <= j < self.queue_pairs@.len() ==> (#[trigger] self.queue_pairs@[j]).handle
                        != handle,
            },
    {
        let mut i: usize = 0;
        while i < self.queue_pairs.len()
            invariant
                i <= self.queue_pairs@.len(),
                forall|j: int| 0 <= j < i ==> (#[trigger] self.queue_pairs@[j]).handle != handle,
            decreases self.queue_pairs@.len() - i,
        {
            if self.queue_pairs[i].handle.queue == handle.queue
                && self.queue_pairs[i].handle.namespace == handle.namespace {
                return Some(i);
            }
            i += 1;
        }
        None
    }

    /// Where a transfer of `len` bytes at block `logical_block_address`
    /// starts in the namespace at `index`, if it lies within the namespace.
    fn locate(&self, index: usize, len: usize, logical_block_address: u64) -> (offset: Option<usize>)
        requires
            self.inv(),
            index < self.namespaces@.len(),
        ensures
            offset is Some <==> in_range(
                self.storage(index),
                logical_block_address * self.namespaces@[index as int].block_size,
                len as int,
            ),
            offset matches Some(offset) ==> offset == logical_block_address
                * self.namespaces@[index as int].block_size && offset + len <= usize::MAX,
    {
        let block_size = self.namespaces[index].block_size;
        let size = self.storage[index].len();
        let offset = match logical_block_address.checked_mul(block_size) {
            Some(offset) => offset,
            None => { return None; },
        };
        if offset > size as u64 {
            return None;
        }
        if len > size - offset as usize {
            return None;
        }
        Some(offset as usize)
    }
}

/// Queue pairs with distinct handles and distinct memory have as many
/// handles, and as many addresses of memory, as there are queue pairs.
pub proof fn lemma_counts(queue_pairs: Seq<QueuePair>, addresses: Set<usize>)
    requires
        forall|i: int, j: int|
            0 <= i < j < queue_pairs.len() ==> (#[trigger] queue_pairs[i]).handle.queue
                < (#[trigger] queue_pairs[j]).handle.queue,
        forall|i: int, j: int|
            0 <= i < j < queue_pairs.len() ==> (#[trigger] queue_pairs[i]).memory
                != (#[trigger] queue_pairs[j]).memory,
        forall|i: int| 0 <= i < queue_pairs.len() ==> addresses.contains((#[trigger] queue_pairs[i]).memory),
        forall|address: usize|
            addresses.contains(address) ==> exists|i: int|
                0 <= i < queue_pairs.len() && (#[trigger] queue_pairs[i]).memory == address,
        addresses.finite(),
    ensures
        handles_of(queue_pairs).to_set().finite(),
        handles_of(queue_pairs).to_set().len() == queue_pairs.len(),
        addresses.len() == queue_pairs.len(),
    decreases queue_pairs.len(),
{
    let handles = handles_of(queue_pairs);
    assert(handles.no_duplicates()) by {
        assert forall|i: int, j: int| 0 <= i < handles.len() && 0 <= j < handles.len() && i != j implies handles[i]
            != handles[j] by {
            if i < j {
                assert(queue_pairs[i].handle.queue < queue_pairs[j].handle.queue);
            } else {
                assert(queue_pairs[j].handle.queue < queue_pairs[i].handle.queue);
            }
        }
    }
    handles.unique_seq_to_set();
    let memories = queue_pairs.map_values(|queue_pair: QueuePair| queue_pair.memory);
    assert(memories.no_duplicates()) by {
        assert forall|i: int, j: int| 0 <= i < memories.len() && 0 <= j < memories.len() && i != j implies memories[i]
            != memories[j] by {
            if i < j {
                assert(queue_pairs[i].memory != queue_pairs[j].memory);
            } else {
                assert(queue_pairs[j].memory != queue_pairs[i].memory);
            }
        }
    }
    memories.unique_seq_to_set();
    assert(memories.to_set() =~= addresses) by {
        assert forall|address: usize| memories.to_set().contains(address) implies addresses.contains(
            address,
        ) by {
            let i = choose|i: int| 0 <= i < memories.len() && memories[i] == address;
            assert(queue_pairs[i].memory == address);
        }
        assert forall|address: usize| addresses.contains(address) implies memories.to_set().contains(
            address,
        ) by {
            let i = choose|i: int| 0 <= i < queue_pairs.len() && (#[trigger] queue_pairs[i]).memory == address;
            assert(memories[i] == address);
        }
    }
}

impl<A: DeviceMemory> Controller for RamDisk<A> {
    closed spec fn inv(&self) -> bool {
        &&& self.namespaces@.len() == self.storage@.len()
        &&& forall|index: int|
            0 <= index < self.namespaces@.len() ==> {
                &&& (#[trigger] self.namespaces@[index]).index == index
                &&& self.namespaces@[index].valid()
                &&& self.storage@[index]@.len() == self.namespaces@[index].spec_byte_size()
            }
        &&& forall|i: int|
            0 <= i < self.queue_pairs@.len() ==> {
                &&& (#[trigger] self.queue_pairs@[i]).handle.namespace < self.namespaces@.len()
                &&& self.queue_pairs@[i].handle.queue < self.next_queue
                &&& self.allocator@.contains_key(self.queue_pairs@[i].memory)
            }
        &&& forall|i: int, j: int|
            0 <= i < j < self.queue_pairs@.len() ==> (#[trigger] self.queue_pairs@[i]).handle.queue
                < (#[trigger] self.queue_pairs@[j]).handle.queue
        &&& forall|i: int, j: int|
            0 <= i < j < self.queue_pairs@.len() ==> (#[trigger] self.queue_pairs@[i]).memory
                != (#[trigger] self.queue_pairs@[j]).memory
        &&& self.allocator.wf()
        &&& forall|address: usize|
            self.allocator@.contains_key(address) ==> exists|i: int|
                0 <= i < self.queue_pairs@.len() && (#[trigger] self.queue_pairs@[i]).memory == address
    }

    closed spec fn namespaces(&self) -> Seq<Namespace> {
        self.namespaces@
    }

    closed spec fn data(&self) -> ControllerData {
        self.data
    }

    closed spec fn queue_pairs(&self) -> Set<QueuePairHandle> {
        Set::new(
            |handle: QueuePairHandle|
                exists|i: int|
                    0 <= i < self.queue_pairs@.len() && (#[trigger] self.queue_pairs@[i]).handle == handle,
        )
    }

    closed spec fn storage(&self, index: usize) -> Seq<u8> {
        if index < self.storage@.len() {
            self.storage@[index as int]@
        } else {
            Seq::empty()
        }
    }

    closed spec fn transfers(&self) -> nat {
        self.transfers@
    }

    closed spec fn identifies(&self, start_index: usize) -> bool {
        start_index <= self.namespaces@.len()
    }

    closed spec fn creates(&self, namespace: Namespace, number_of_entries: usize) -> Option<
        QueuePairHandle,
    > {
        if number_of_entries == 0 || number_of_entries > self.data.max_queue_entries
            || self.next_queue == usize::MAX || self.allocator.grants(
            (number_of_entries * QUEUE_ENTRY_SIZE) as usize,
        ) is None {
            None
        } else {
            Some(QueuePairHandle { queue: self.next_queue, namespace: namespace.index })
        }
    }

    closed spec fn deletes(&self, handle: QueuePairHandle) -> bool {
        true
    }

    closed spec fn reads(&self, handle: QueuePairHandle, len: usize, logical_block_address: u64) -> bool {
        handle.namespace < self.namespaces@.len() && in_range(
            self.storage@[handle.namespace as int]@,
            logical_block_address * self.namespaces@[handle.namespace as int].block_size,
            len as int,
        )
    }

    closed spec fn writes(&self, handle: QueuePairHandle, len: usize, logical_block_address: u64) -> bool {
        handle.namespace < self.namespaces@.len() && in_range(
            self.storage@[handle.namespace as int]@,
            logical_block_address * self.namespaces@[handle.namespace as int].block_size,
            len as int,
        )
    }

    proof fn lemma_inv(&self) {
        assert forall|handle: QueuePairHandle| #[trigger]
            self.queue_pairs().contains(handle) implies handle.namespace < self.namespaces().len() by {
            let i = choose|i: int|
                0 <= i < self.queue_pairs@.len() && (#[trigger] self.queue_pairs@[i]).handle == handle;
            assert(self.queue_pairs@[i].handle.namespace < self.namespaces@.len());
        }
    }

    fn identify_namespaces(&mut self, start_index: usize) -> (list: Result<
        Vec<Namespace>,
        ControllerError,
    >)
        ensures
            *final(self) == *old(self),
            list is Ok <==> start_index <= old(self).namespaces().len(),
            list matches Ok(list) ==> list@ == old(self).namespaces().skip(start_index as int),
    {
        if start_index > self.namespaces.len() {
            return Err(ControllerError {  });
        }
        let mut list: Vec<Namespace> = Vec::new();
        let mut i: usize = start_index;
        while i < self.namespaces.len()
            invariant
                start_index <= i <= self.namespaces@.len(),
                list@.len() == i - start_index,
                forall|j: int| 0 <= j < list@.len() ==> list@[j] == self.namespaces@[start_index + j],
            decreases self.namespaces@.len() - i,
        {
            list.push(self.namespaces[i]);
            i += 1;
        }
        assert(list@ =~= self.namespaces@.skip(start_index as int));
        assert(start_index == 0 ==> list@ =~= self.namespaces@);
        Ok(list)
    }

    fn controller_data(&self) -> (data: ControllerData) {
        self.data
    }

    fn create_io_queue_pair(&mut self, namespace: Namespace, number_of_entries: usize) -> (handle:
        Result<QueuePairHandle, ControllerError>)
        ensures
            number_of_entries == 0 || number_of_entries > old(self).data().max_queue_entries
                ==> handle is Err && *final(self) == *old(self),
            handle matches Ok(handle) ==> handle.queue == old(self).queue_pairs_built()
                && final(self).queue_pairs_built() == old(self).queue_pairs_built() + 1,
            handle is Err ==> final(self).queue_pairs_built() == old(self).queue_pairs_built(),
    {
        if number_of_entries == 0 || number_of_entries > self.data.max_queue_entries as usize
            || self.next_queue == usize::MAX {
            return Err(ControllerError {  });
        }
        let memory = match self.allocator.allocate(number_of_entries * QUEUE_ENTRY_SIZE) {
            Some(memory) => memory,
            None => {
                assert(self.queue_pairs() =~= old(self).queue_pairs());
                return Err(ControllerError {  });
            },
        };
        let handle = QueuePairHandle { queue: self.next_queue, namespace: namespace.index };
        self.queue_pairs.push(QueuePair { handle, memory });
        self.next_queue = self.next_queue + 1;
        proof {
            let before = old(self).queue_pairs@;
            let after = self.queue_pairs@;
            assert(after[after.len() - 1].handle == handle);
            assert forall|i: int| 0 <= i < before.len() implies (#[trigger] after[i]) == before[i]
                && before[i].handle != handle && before[i].memory != memory by {
                assert(before[i].handle.queue < old(self).next_queue);
                assert(old(self).allocator@.contains_key(before[i].memory));
            }
            assert forall|address: usize| self.allocator@.contains_key(address) implies exists|i: int|
                0 <= i < after.len() && (#[trigger] after[i]).memory == address by {
                if address == memory {
                    assert(after[after.len() - 1].memory == address);
                } else {
                    assert(old(self).allocator@.contains_key(address));
                    let i = choose|i: int| 0 <= i < before.len() && (#[trigger] before[i]).memory == address;
                    assert(after[i].memory == address);
                }
            }
            assert forall|h: QueuePairHandle|
                self.queue_pairs().contains(h) <==> old(self).queue_pairs().contains(h) || h
                    == handle by {
                if self.queue_pairs().contains(h) {
                    let i = choose|i: int| 0 <= i < after.len() && (#[trigger] after[i]).handle == h;
                    if i < before.len() {
                        assert(before[i].handle == h);
                    }
                }
                if old(self).queue_pairs().contains(h) {
                    let i = choose|i: int| 0 <= i < before.len() && (#[trigger] before[i]).handle == h;
                    assert(after[i].handle == h);
                }
            }
            assert(self.queue_pairs() =~= old(self).queue_pairs().insert(handle));
        }
        Ok(handle)
    }

    fn delete_io_queue_pair(&mut self, handle: QueuePairHandle) -> (outcome: Result<
        (),
        ControllerError,
    >)
        ensures
            outcome is Ok,
    {
        let i = match self.find(handle) {
            Some(i) => i,
            None => {
                assert(old(self).queue_pairs().contains(handle));
                let ghost k = choose|k: int|
                    0 <= k < self.queue_pairs@.len() && (#[trigger] self.queue_pairs@[k]).handle == handle;
                assert(self.queue_pairs@[k].handle == handle);
                return Err(ControllerError {  });
            },
        };
        let memory = self.queue_pairs[i].memory;
        self.queue_pairs.remove(i);
        self.allocator.deallocate(memory);
        proof {
            let before = old(self).queue_pairs@;
            let after = self.queue_pairs@;
            assert forall|k: int| 0 <= k < after.len() implies (#[trigger] after[k]) == before[if k < i {
                k
            } else {
                k + 1
            }] && after[k].handle != handle && after[k].memory != memory by {
                let x = if k < i { k } else { k + 1 };
                assert(before[x] == after[k]);
                if x < i {
                    assert(before[x].handle.queue < before[i as int].handle.queue);
                    assert(before[x].memory != before[i as int].memory);
                } else {
                    assert(before[i as int].handle.queue < before[x].handle.queue);
                    assert(before[i as int].memory != before[x].memory);
                }
            }
            assert forall|a: int, b: int| 0 <= a < b < after.len() implies (#[trigger] after[a]).handle.queue
                < (#[trigger] after[b]).handle.queue && after[a].memory != after[b].memory by {
                let x = if a < i { a } else { a + 1 };
                let y = if b < i { b } else { b + 1 };
                assert(before[x].handle.queue < before[y].handle.queue);
                assert(before[x].memory != before[y].memory);
            }
            assert forall|address: usize| self.allocator@.contains_key(address) implies exists|k: int|
                0 <= k < after.len() && (#[trigger] after[k]).memory == address by {
                assert(old(self).allocator@.contains_key(address));
                let x = choose|x: int| 0 <= x < before.len() && (#[trigger] before[x]).memory == address;
                let k = if x < i { x } else { x - 1 };
                assert(after[k] == before[x]);
            }
            assert forall|h: QueuePairHandle| h != handle implies (self.queue_pairs().contains(h)
                <==> old(self).queue_pairs().contains(h)) by {
                if self.queue_pairs().contains(h) {
                    let k = choose|k: int| 0 <= k < after.len() && (#[trigger] after[k]).handle == h;
                    let x = if k < i { k } else { k + 1 };
                    assert(before[x].handle == h);
                }
                if old(self).queue_pairs().contains(h) {
                    let x = choose|x: int| 0 <= x < before.len() && (#[trigger] before[x]).handle == h;
                    let k = if x < i { x } else { x - 1 };
                    assert(after[k].handle == h);
                }
            }
            assert(self.queue_pairs().remove(handle) =~= old(self).queue_pairs().remove(handle));
            assert(!self.queue_pairs().contains(handle));
        }
        Ok(())
    }

    fn read<M: DeviceMemory>(
        &mut self,
        handle: QueuePairHandle,
        memory: &mut M,
        address: usize,
        len: usize,
        logical_block_address: u64,
    ) -> (outcome: Result<(), ControllerError>)
        ensures
            outcome is Ok <==> in_range(
                old(self).storage(handle.namespace),
                logical_block_address * old(self).namespaces()[handle.namespace as int].block_size,
                len as int,
            ),
    {
        proof {
            self.lemma_inv();
        }
        let located = self.locate(handle.namespace, len, logical_block_address);
        self.transfers = Ghost((self.transfers@ + 1) as nat);
        proof {
            assert forall|address: usize| self.allocator@.contains_key(address) implies exists|i: int|
                0 <= i < self.queue_pairs@.len() && (#[trigger] self.queue_pairs@[i]).memory == address by {
                assert(old(self).allocator@.contains_key(address));
                let i = choose|i: int|
                    0 <= i < old(self).queue_pairs@.len() && (#[trigger] old(self).queue_pairs@[i]).memory
                        == address;
                assert(self.queue_pairs@[i].memory == address);
            }
        }
        let offset = match located {
            Some(offset) => offset,
            None => { return Err(ControllerError {  }); },
        };
        let mut data: Vec<u8> = Vec::new();
        let mut k: usize = 0;
        while k < len
            invariant
                handle.namespace < self.storage@.len(),
                offset + len <= self.storage@[handle.namespace as int]@.len(),
                offset + len <= usize::MAX,
                k <= len,
                data@.len() == k,
                forall|j: int|
                    0 <= j < k ==> data@[j] == self.storage@[handle.namespace as int]@[offset + j],
            decreases len - k,
        {
            data.push(self.storage[handle.namespace][offset + k]);
            k += 1;
        }
        memory.store(address, data.as_slice());
        proof {
            memory.lemma_inv();
            assert(memory.bytes(address).take(len as int) =~= storage_read(
                self.storage(handle.namespace),
                offset as int,
                len as int,
            ));
        }
        Ok(())
    }

    fn write<M: DeviceMemory>(
        &mut self,
        handle: QueuePairHandle,
        memory: &M,
        address: usize,
        len: usize,
        logical_block_address: u64,
    ) -> (outcome: Result<(), ControllerError>)
        ensures
            outcome is Ok <==> in_range(
                old(self).storage(handle.namespace),
                logical_block_address * old(self).namespaces()[handle.namespace as int].block_size,
                len as int,
            ),
    {
        proof {
            self.lemma_inv();
        }
        let located = self.locate(handle.namespace, len, logical_block_address);
        self.transfers = Ghost((self.transfers@ + 1) as nat);
        proof {
            assert forall|address: usize| self.allocator@.contains_key(address) implies exists|i: int|
                0 <= i < self.queue_pairs@.len() && (#[trigger] self.queue_pairs@[i]).memory == address by {
                assert(old(self).allocator@.contains_key(address));
                let i = choose|i: int|
                    0 <= i < old(self).queue_pairs@.len() && (#[trigger] old(self).queue_pairs@[i]).memory
                        == address;
                assert(self.queue_pairs@[i].memory == address);
            }
        }
        let offset = match located {
            Some(offset) => offset,
            None => { return Err(ControllerError {  }); },
        };
        let data = memory.load(address, len);
        proof {
            memory.lemma_inv();
        }
        let size = self.storage[handle.namespace].len();
        let mut bytes: Vec<u8> = Vec::new();
        let mut k: usize = 0;
        while k < size
            invariant
                handle.namespace < self.storage@.len(),
                size == self.storage@[handle.namespace as int]@.len(),
                offset + len <= size,
                data@.len() == len,
                k <= size,
                bytes@.len() == k,
                forall|j: int|
                    0 <= j < k ==> bytes@[j] == (if offset <= j < offset + len {
                        data@[j - offset]
                    } else {
                        self.storage@[handle.namespace as int]@[j]
                    }),
            decreases size - k,
        {
            let byte = if offset <= k && k - offset < len {
                data[k - offset]
            } else {
                self.storage[handle.namespace][k]
            };
            bytes.push(byte);
            k += 1;
        }
        self.storage[handle.namespace] = bytes;
        proof {
            assert(self.storage(handle.namespace) =~= storage_write(
                old(self).storage(handle.namespace),
                offset as int,
                memory.bytes(address).take(len as int),
            ));
            assert(self.queue_pairs() =~= old(self).queue_pairs());
        }
        Ok(())
    }
}

} // verus!
