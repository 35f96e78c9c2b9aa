//! The storage controller, as the driver sees it.
//!
//! The driver never frames a command itself. It relies on a [`Controller`],
//! which identifies the namespaces of the device, builds and tears down queue
//! pairs, and moves bytes between a namespace and device memory.
//! [`crate::ramdisk::RamDisk`] is a controller whose namespaces live in
//! ordinary memory.

use vstd::prelude::*;
use crate::layout::BASE_PAGE_SIZE;
use crate::memory::DeviceMemory;
use crate::registry::QueuePairHandle;

verus! {

/// A namespace of the device: an independently addressable range of blocks.
#[derive(Debug, PartialEq, Eq, Structural, Clone, Copy)]
pub struct Namespace {
    /// The position of the namespace among those the controller reports.
    pub index: usize,
    /// How many blocks the namespace has.
    pub block_count: u64,
    /// How many bytes one block has.
    pub block_size: u64,
}

impl Namespace {
    /// The size of the namespace in bytes.
    pub open spec fn spec_byte_size(self) -> int {
        self.block_count * self.block_size
    }

    /// Whether the size of the namespace in bytes fits 64 bits.
    pub open spec fn valid(self) -> bool {
        self.spec_byte_size() <= u64::MAX
    }

    /// The size of the namespace in bytes.
    pub fn byte_size(&self) -> (size: u64)
        requires
            self.valid(),
        ensures
            size == self.spec_byte_size(),
    {
        self.block_count * self.block_size
    }
}

/// The limits of a controller.
#[derive(Debug, PartialEq, Eq, Structural, Clone, Copy)]
pub struct ControllerData {
    /// The most bytes one transfer moves.
    pub max_transfer_size: usize,
    /// The most entries a queue has.
    pub max_queue_entries: u16,
}

/// A request that the controller did not carry out.
#[derive(Debug, PartialEq, Eq, Structural, Clone, Copy)]
pub struct ControllerError {}

/// The bytes of `storage` after `data` has been written at `offset`.
pub open spec fn storage_write(storage: Seq<u8>, offset: int, data: Seq<u8>) -> Seq<u8> {
    Seq::new(
        storage.len(),
        |i: int|
            if offset <= i < offset + data.len() {
                data[i - offset]
            } else {
                storage[i]
            },
    )
}

/// The `len` bytes of `storage` that start at `offset`.
pub open spec fn storage_read(storage: Seq<u8>, offset: int, len: int) -> Seq<u8> {
    storage.subrange(offset, offset + len)
}

/// Whether `len` bytes at `offset` lie within `storage`.
pub open spec fn in_range(storage: Seq<u8>, offset: int, len: int) -> bool {
    0 <= offset && 0 <= len && offset + len <= storage.len()
}

/// Reading back what was written yields the bytes that were written.
pub proof fn lemma_write_then_read(storage: Seq<u8>, offset: int, data: Seq<u8>)
    requires
        in_range(storage, offset, data.len() as int),
    ensures
        storage_read(storage_write(storage, offset, data), offset, data.len() as int) == data,
{
    assert(storage_read(storage_write(storage, offset, data), offset, data.len() as int) =~= data);
}

/// A write changes no byte outside the range it covers.
pub proof fn lemma_write_keeps_rest(storage: Seq<u8>, offset: int, data: Seq<u8>, other: int, len: int)
    requires
        in_range(storage, offset, data.len() as int),
        in_range(storage, other, len),
        other + len <= offset || offset + data.len() <= other,
    ensures
        storage_read(storage_write(storage, offset, data), other, len) == storage_read(
            storage,
            other,
            len,
        ),
{
    assert(storage_read(storage_write(storage, offset, data), other, len) =~= storage_read(
        storage,
        other,
        len,
    ));
}

/// A storage controller.
///
/// A value of this type stands for the state of the device: the namespaces
/// it reports, the bytes each of them holds, and the queue pairs that are
/// live on it.
pub trait Controller: Sized {
    /// The invariant of the implementation.
    spec fn inv(&self) -> bool;

    /// The namespaces of the device, in the order in which it reports them.
    spec fn namespaces(&self) -> Seq<Namespace>;

    /// The limits of the controller.
    spec fn data(&self) -> ControllerData;

    /// The handles of the live queue pairs.
    spec fn queue_pairs(&self) -> Set<QueuePairHandle>;

    /// The bytes that the namespace at `index` holds.
    spec fn storage(&self, index: usize) -> Seq<u8>;

    /// How many transfers have been submitted through queue pairs so far.
    spec fn transfers(&self) -> nat;

    /// Whether the device would now answer when asked for its namespaces
    /// from `start_index` on.
    spec fn identifies(&self, start_index: usize) -> bool;

    /// The handle of the queue pair that the controller would now build for
    /// `namespace` with `number_of_entries` entries, or `None` if it would
    /// build none.
    spec fn creates(&self, namespace: Namespace, number_of_entries: usize) -> Option<QueuePairHandle>;

    /// Whether the controller would now tear down the queue pair behind
    /// `handle`.
    spec fn deletes(&self, handle: QueuePairHandle) -> bool;

    /// Whether a read of `len` bytes from block `logical_block_address`
    /// through the queue pair behind `handle` would now succeed.
    spec fn reads(&self, handle: QueuePairHandle, len: usize, logical_block_address: u64) -> bool;

    /// Whether a write of `len` bytes to block `logical_block_address`
    /// through the queue pair behind `handle` would now succeed.
    spec fn writes(&self, handle: QueuePairHandle, len: usize, logical_block_address: u64) -> bool;

    /// Every namespace knows its position and has a size that fits 64 bits,
    /// which is the number of bytes it holds; every live queue pair is bound
    /// to one of the namespaces.
    proof fn lemma_inv(&self)
        requires
            self.inv(),
        ensures
            forall|index: usize|
                index < self.namespaces().len() ==> {
                    &&& (#[trigger] self.namespaces()[index as int]).index == index
                    &&& self.namespaces()[index as int].valid()
                    &&& self.storage(index).len() == self.namespaces()[index as int].spec_byte_size()
                },
            forall|handle: QueuePairHandle| #[trigger]
                self.queue_pairs().contains(handle) ==> handle.namespace < self.namespaces().len(),
    ;

    /// Asks the device for its namespaces from `start_index` on.
    ///
    /// The request changes nothing on the device, nor what queue pairs the
    /// controller would build. From index 0 the answer is the whole list.
    fn identify_namespaces(&mut self, start_index: usize) -> (list: Result<
        Vec<Namespace>,
        ControllerError,
    >)
        requires
            old(self).inv(),
        ensures
            final(self).inv(),
            final(self).namespaces() == old(self).namespaces(),
            final(self).data() == old(self).data(),
            final(self).queue_pairs() == old(self).queue_pairs(),
            final(self).transfers() == old(self).transfers(),
            forall|index: usize| #[trigger] final(self).storage(index) == old(self).storage(index),
            forall|namespace: Namespace, number_of_entries: usize| #[trigger]
                final(self).creates(namespace, number_of_entries) == old(self).creates(
                    namespace,
                    number_of_entries,
                ),
            list is Ok <==> old(self).identifies(start_index),
            list matches Ok(list) ==> start_index == 0 ==> list@ == old(self).namespaces(),
    ;

    /// The limits of the controller.
    fn controller_data(&self) -> (data: ControllerData)
        requires
            self.inv(),
        ensures
            data == self.data(),
    ;

    /// Builds a queue pair of `number_of_entries` entries that is bound to
    /// `namespace`, which is one of the namespaces the device reports.
    ///
    /// On success the handle is new among the live ones. On failure no
    /// queue pair has appeared.
    fn create_io_queue_pair(&mut self, namespace: Namespace, number_of_entries: usize) -> (handle:
        Result<QueuePairHandle, ControllerError>)
        requires
            old(self).inv(),
            namespace.index < old(self).namespaces().len(),
            old(self).namespaces()[namespace.index as int] == namespace,
        ensures
            final(self).inv(),
            final(self).namespaces() == old(self).namespaces(),
            final(self).data() == old(self).data(),
            final(self).transfers() == old(self).transfers(),
            forall|index: usize| #[trigger] final(self).storage(index) == old(self).storage(index),
            handle == (match old(self).creates(namespace, number_of_entries) {
                Some(handle) => Ok(handle),
                None => Err(ControllerError {  }),
            }),
            match handle {
                Ok(handle) => {
                    &&& !old(self).queue_pairs().contains(handle)
                    &&& final(self).queue_pairs() == old(self).queue_pairs().insert(handle)
                    &&& handle.namespace == namespace.index
                },
                Err(_) => final(self).queue_pairs() == old(self).queue_pairs(),
            },
    ;

    /// Tears down the live queue pair behind `handle`.
    ///
    /// On success the queue pair is gone. Whatever the outcome, every other
    /// queue pair is as before.
    fn delete_io_queue_pair(&mut self, handle: QueuePairHandle) -> (outcome: Result<
        (),
        ControllerError,
    >)
        requires
            old(self).inv(),
            old(self).queue_pairs().contains(handle),
        ensures
            final(self).inv(),
            final(self).namespaces() == old(self).namespaces(),
            final(self).data() == old(self).data(),
            final(self).transfers() == old(self).transfers(),
            forall|index: usize| #[trigger] final(self).storage(index) == old(self).storage(index),
            final(self).queue_pairs().remove(handle) == old(self).queue_pairs().remove(handle),
            outcome is Ok <==> old(self).deletes(handle),
            outcome is Ok ==> !final(self).queue_pairs().contains(handle),
    ;

    /// Submits a read of `len` bytes from block `logical_block_address` of
    /// the namespace behind `handle` into the allocation at `address`, which
    /// is aligned to a page.
    ///
    /// The device is as before, but for the count of transfers. On success
    /// the range lay within the namespace and its bytes are at the start of
    /// the allocation. Whatever the outcome, every other allocation is as
    /// before.
    fn read<M: DeviceMemory>(
        &mut self,
        handle: QueuePairHandle,
        memory: &mut M,
        address: usize,
        len: usize,
        logical_block_address: u64,
    ) -> (outcome: Result<(), ControllerError>)
        requires
            old(self).inv(),
            old(self).queue_pairs().contains(handle),
            old(memory).inv(),
            old(memory).allocations().contains_key(address),
            address % BASE_PAGE_SIZE == 0,
            len <= old(memory).allocations()[address].size,
        ensures
            final(self).inv(),
            final(self).namespaces() == old(self).namespaces(),
            final(self).data() == old(self).data(),
            final(self).queue_pairs() == old(self).queue_pairs(),
            final(self).transfers() == old(self).transfers() + 1,
            forall|index: usize| #[trigger] final(self).storage(index) == old(self).storage(index),
            final(memory).inv(),
            final(memory).allocations() == old(memory).allocations(),
            final(memory).granted() == old(memory).granted(),
            forall|other: usize|
                other != address && old(memory).allocations().contains_key(other) ==> #[trigger] final(memory).bytes(other) == old(memory).bytes(other),
            outcome is Ok <==> old(self).reads(handle, len, logical_block_address),
            outcome is Ok ==> {
                &&& in_range(
                    old(self).storage(handle.namespace),
                    logical_block_address * old(self).namespaces()[handle.namespace as int].block_size,
                    len as int,
                )
                &&& final(memory).bytes(address).take(len as int) == storage_read(
                    old(self).storage(handle.namespace),
                    logical_block_address * old(self).namespaces()[handle.namespace as int].block_size,
                    len as int,
                )
            },
    ;

    /// Submits a write of the first `len` bytes of the allocation at
    /// `address`, which is aligned to a page, to block
    /// `logical_block_address` of the namespace behind `handle`.
    ///
    /// On success the range lay within the namespace and now holds those
    /// bytes. On failure no namespace has changed. Whatever the outcome,
    /// every other namespace is as before.
    fn write<M: DeviceMemory>(
        &mut self,
        handle: QueuePairHandle,
        memory: &M,
        address: usize,
        len: usize,
        logical_block_address: u64,
    ) -> (outcome: Result<(), ControllerError>)
        requires
            old(self).inv(),
            old(self).queue_pairs().contains(handle),
            memory.inv(),
            memory.allocations().contains_key(address),
            address % BASE_PAGE_SIZE == 0,
            len <= memory.allocations()[address].size,
        ensures
            final(self).inv(),
            final(self).namespaces() == old(self).namespaces(),
            final(self).data() == old(self).data(),
            final(self).queue_pairs() == old(self).queue_pairs(),
            final(self).transfers() == old(self).transfers() + 1,
            forall|index: usize|
                index != handle.namespace ==> #[trigger] final(self).storage(index) == old(self).storage(index),
            outcome is Ok <==> old(self).writes(handle, len, logical_block_address),
            match outcome {
                Ok(_) => {
                    &&& in_range(
                        old(self).storage(handle.namespace),
                        logical_block_address * old(self).namespaces()[handle.namespace as int].block_size,
                        len as int,
                    )
                    &&& final(self).storage(handle.namespace) == storage_write(
                        old(self).storage(handle.namespace),
                        logical_block_address * old(self).namespaces()[handle.namespace as int].block_size,
                        memory.bytes(address).take(len as int),
                    )
                },
                Err(_) => final(self).storage(handle.namespace) == old(self).storage(handle.namespace),
            },
    ;
}

} // verus!
