//! The NVMe driver.
//!
//! The driver owns the controller, a source of device memory for its own
//! transfer buffers, the registry of queue pairs and the interrupt line of
//! the device. Callers read and write blocks through a queue pair that they
//! name by its identifier; the driver stages every transfer through a
//! DMA-capable buffer of its own, because a caller's buffer need not be one.

use vstd::prelude::*;
use pci_types::InterruptLine;
use crate::controller::{Controller, ControllerError, Namespace, in_range, storage_read, storage_write};
use crate::error::SysNvmeError;
use crate::layout::DmaLayout;
use crate::memory::DeviceMemory;
use crate::registry::{
    IoQueuePairId,
    QueuePairHandle,
    QueuePairRegistry,
    MAX_NUMBER_OF_QUEUE_PAIRS,
    is_lowest_free,
};

verus! {

/// Whether a transfer of `len` bytes is more than the controller moves at
/// once, or more than a staging buffer can hold.
pub open spec fn too_big(len: usize, max_transfer_size: usize) -> bool {
    len > max_transfer_size || DmaLayout::page_aligned_layout(len) is None
}

/// The layout of the buffer that stages a transfer of `len` bytes through a
/// controller that moves at most `max_transfer_size` bytes at once.
pub fn staging_layout(len: usize, max_transfer_size: usize) -> (layout: Result<
    DmaLayout,
    SysNvmeError,
>)
    ensures
        layout == (if too_big(len, max_transfer_size) {
            Err(SysNvmeError::BufferTooBig)
        } else {
            Ok(DmaLayout::page_aligned_layout(len).unwrap())
        }),
        layout matches Ok(l) ==> l.valid(),
{
    if len > max_transfer_size {
        return Err(SysNvmeError::BufferTooBig);
    }
    match DmaLayout::page_aligned(len) {
        Some(layout) => Ok(layout),
        None => Err(SysNvmeError::BufferTooBig),
    }
}

/// Counts the namespaces in what the controller answered when asked for
/// them.
pub fn count_namespaces(list: &Result<Vec<Namespace>, ControllerError>) -> (count: Result<
    usize,
    SysNvmeError,
>)
    ensures
        match (*list, count) {
            (Err(_), Err(error)) => error == SysNvmeError::CouldNotIdentifyNamespaces,
            (Ok(namespaces), Ok(count)) => count == namespaces@.len(),
            _ => false,
        },
{
    match list {
        Err(_) => Err(SysNvmeError::CouldNotIdentifyNamespaces),
        Ok(namespaces) => Ok(namespaces.len()),
    }
}

/// Picks the namespace at `namespace_index` from what the controller
/// answered when asked for its namespaces.
pub fn select_namespace(
    list: &Result<Vec<Namespace>, ControllerError>,
    namespace_index: usize,
) -> (namespace: Result<Namespace, SysNvmeError>)
    ensures
        namespace == (match *list {
            Err(_) => Err(SysNvmeError::CouldNotIdentifyNamespaces),
            Ok(namespaces) => if namespace_index < namespaces@.len() {
                Ok(namespaces@[namespace_index as int])
            } else {
                Err(SysNvmeError::NamespaceDoesNotExist)
            },
        }),
{
    match list {
        Err(_) => Err(SysNvmeError::CouldNotIdentifyNamespaces),
        Ok(namespaces) => {
            if namespace_index < namespaces.len() {
                Ok(namespaces[namespace_index])
            } else {
                Err(SysNvmeError::NamespaceDoesNotExist)
            }
        },
    }
}

/// Copies `data` over `buffer`, which has the same length.
fn copy_to_caller(buffer: &mut [u8], data: &Vec<u8>)
    requires
        old(buffer)@.len() == data@.len(),
    ensures
        final(buffer)@ == data@,
{
    let mut i: usize = 0;
    while i < buffer.len()
        invariant
            buffer@.len() == data@.len(),
            i <= buffer@.len(),
            forall|j: int| 0 <= j < i ==> buffer@[j] == data@[j],
        decreases buffer@.len() - i,
    {
        buffer[i] = data[i];
        i += 1;
    }
    assert(buffer@ =~= data@);
}

/// Whether every namespace holds the same bytes in `after` as in `before`.
pub open spec fn same_storage<C: Controller>(before: C, after: C) -> bool {
    forall|index: usize| #[trigger] after.storage(index) == before.storage(index)
}

/// Whether every namespace but the one at `namespace` holds the same bytes
/// in `after` as in `before`.
pub open spec fn same_storage_but<C: Controller>(before: C, after: C, namespace: usize) -> bool {
    forall|index: usize|
        index != namespace ==> #[trigger] after.storage(index) == before.storage(index)
}

/// Whether `after` has the allocations of `before`, each with the bytes it
/// had.
pub open spec fn same_allocations<M: DeviceMemory>(before: M, after: M) -> bool {
    &&& after.allocations() == before.allocations()
    &&& forall|address: usize|
        before.allocations().contains_key(address) ==> #[trigger] after.bytes(address)
            == before.bytes(address)
}

/// What asking for the number of namespaces leaves behind: the device is as
/// it was, and the answer is the number of namespaces if the controller
/// identifies them, `CouldNotIdentifyNamespaces` if it does not.
pub open spec fn counted<C: Controller, M: DeviceMemory>(
    before: NvmeDriver<C, M>,
    after: NvmeDriver<C, M>,
    count: Result<usize, SysNvmeError>,
) -> bool {
    &&& quiet(before, after)
    &&& count is Ok <==> before.controller().identifies(0)
    &&& match count {
        Ok(count) => count == before.controller().namespaces().len(),
        Err(error) => error == SysNvmeError::CouldNotIdentifyNamespaces,
    }
}

/// Why the namespace at `namespace_index` cannot be had, if it cannot: the
/// controller does not identify the namespaces, or the index is not below
/// their number.
pub open spec fn namespace_error<C: Controller, M: DeviceMemory>(
    driver: NvmeDriver<C, M>,
    namespace_index: usize,
) -> Option<SysNvmeError> {
    if !driver.controller().identifies(0) {
        Some(SysNvmeError::CouldNotIdentifyNamespaces)
    } else if namespace_index >= driver.controller().namespaces().len() {
        Some(SysNvmeError::NamespaceDoesNotExist)
    } else {
        None
    }
}

/// What asking for the size of the namespace at `namespace_index` leaves
/// behind: the device is as it was, and the answer is the size in bytes if
/// the namespace can be had, and why it cannot if it cannot.
pub open spec fn sized<C: Controller, M: DeviceMemory>(
    before: NvmeDriver<C, M>,
    after: NvmeDriver<C, M>,
    namespace_index: usize,
    size: Result<u64, SysNvmeError>,
) -> bool {
    &&& quiet(before, after)
    &&& match size {
        Ok(size) => {
            &&& namespace_error(before, namespace_index) is None
            &&& size == before.controller().namespaces()[namespace_index as int].spec_byte_size()
        },
        Err(error) => namespace_error(before, namespace_index) == Some(error),
    }
}

/// Whether `after` differs from `before` in nothing that a caller can
/// observe: the same queue pairs, the same memory, and a controller with the
/// same namespaces, bytes, queue pairs and count of transfers.
pub open spec fn quiet<C: Controller, M: DeviceMemory>(
    before: NvmeDriver<C, M>,
    after: NvmeDriver<C, M>,
) -> bool {
    &&& after.wf()
    &&& after.irq() == before.irq()
    &&& after.queue_pairs() == before.queue_pairs()
    &&& after.capacity() == before.capacity()
    &&& after.memory() == before.memory()
    &&& after.controller().namespaces() == before.controller().namespaces()
    &&& after.controller().data() == before.controller().data()
    &&& after.controller().queue_pairs() == before.controller().queue_pairs()
    &&& after.controller().transfers() == before.controller().transfers()
    &&& same_storage(before.controller(), after.controller())
}

/// Why no queue pair is created for the namespace at `namespace_index`, if
/// none is: the namespace cannot be had; or as many queue pairs are live as
/// the driver keeps; or the controller builds none.
pub open spec fn create_error<C: Controller, M: DeviceMemory>(
    driver: NvmeDriver<C, M>,
    namespace_index: usize,
    number_of_entries: u16,
) -> Option<SysNvmeError> {
    if namespace_error(driver, namespace_index) is Some {
        namespace_error(driver, namespace_index)
    } else if driver.queue_pairs().dom().len() == driver.capacity() {
        Some(SysNvmeError::MaxNumberOfQueuesReached)
    } else if driver.controller().creates(
        driver.controller().namespaces()[namespace_index as int],
        number_of_entries as usize,
    ) is None {
        Some(SysNvmeError::CouldNotCreateIoQueuePair)
    } else {
        None
    }
}

/// What creating a queue pair of `number_of_entries` entries for the
/// namespace at `namespace_index` leaves behind.
///
/// On success the new identifier is the lowest that was free, and it names
/// the handle that the controller built, which is bound to the namespace
/// and new to the controller. On failure the answer says why, and the queue
/// pairs are as they were, in the driver and on the controller.
pub open spec fn created<C: Controller, M: DeviceMemory>(
    before: NvmeDriver<C, M>,
    after: NvmeDriver<C, M>,
    namespace_index: usize,
    number_of_entries: u16,
    id: Result<IoQueuePairId, SysNvmeError>,
) -> bool {
    &&& after.wf()
    &&& after.irq() == before.irq()
    &&& after.capacity() == before.capacity()
    &&& after.memory() == before.memory()
    &&& after.controller().namespaces() == before.controller().namespaces()
    &&& after.controller().data() == before.controller().data()
    &&& after.controller().transfers() == before.controller().transfers()
    &&& same_storage(before.controller(), after.controller())
    &&& match id {
        Ok(id) => {
            let handle = before.controller().creates(
                before.controller().namespaces()[namespace_index as int],
                number_of_entries as usize,
            );
            &&& create_error(before, namespace_index, number_of_entries) is None
            &&& is_lowest_free(before.queue_pairs().dom(), before.capacity(), id.0)
            &&& after.queue_pairs() == before.queue_pairs().insert(id.0, handle->Some_0)
            &&& handle->Some_0.namespace == namespace_index
            &&& after.controller().queue_pairs() == before.controller().queue_pairs().insert(
                handle->Some_0,
            )
            &&& !before.controller().queue_pairs().contains(handle->Some_0)
        },
        Err(error) => {
            &&& create_error(before, namespace_index, number_of_entries) == Some(error)
            &&& after.queue_pairs() == before.queue_pairs()
            &&& after.controller().queue_pairs() == before.controller().queue_pairs()
        },
    }
}

/// Why the queue pair that `id` names is not torn down, if it is not: the
/// identifier names no live queue pair, or the controller does not tear it
/// down.
pub open spec fn delete_error<C: Controller, M: DeviceMemory>(
    driver: NvmeDriver<C, M>,
    id: IoQueuePairId,
) -> Option<SysNvmeError> {
    if !driver.queue_pairs().contains_key(id.0) {
        Some(SysNvmeError::CouldNotFindIoQueuePair)
    } else if !driver.controller().deletes(driver.queue_pairs()[id.0]) {
        Some(SysNvmeError::CouldNotDeleteIoQueuePair)
    } else {
        None
    }
}

/// What deleting the queue pair that `id` names leaves behind.
///
/// An identifier that names no live queue pair changes nothing. Otherwise
/// the identifier is free afterwards, whether the controller tore the queue
/// pair down or failed to, and every other queue pair is as it was.
pub open spec fn deleted<C: Controller, M: DeviceMemory>(
    before: NvmeDriver<C, M>,
    after: NvmeDriver<C, M>,
    id: IoQueuePairId,
    outcome: Result<(), SysNvmeError>,
) -> bool {
    &&& after.wf()
    &&& after.irq() == before.irq()
    &&& after.capacity() == before.capacity()
    &&& after.memory() == before.memory()
    &&& after.controller().namespaces() == before.controller().namespaces()
    &&& after.controller().data() == before.controller().data()
    &&& after.controller().transfers() == before.controller().transfers()
    &&& same_storage(before.controller(), after.controller())
    &&& outcome == (match delete_error(before, id) {
        Some(error) => Err(error),
        None => Ok(()),
    })
    &&& if before.queue_pairs().contains_key(id.0) {
        &&& after.queue_pairs() == before.queue_pairs().remove(id.0)
        &&& after.controller().queue_pairs().remove(before.queue_pairs()[id.0])
            == before.controller().queue_pairs().remove(before.queue_pairs()[id.0])
        &&& outcome is Ok ==> !after.controller().queue_pairs().contains(before.queue_pairs()[id.0])
    } else {
        &&& after.queue_pairs() == before.queue_pairs()
        &&& after.controller() == before.controller()
    }
}

/// What every transfer leaves behind, whatever its outcome: the same queue
/// pairs, the same namespaces, and a memory with the allocations it had,
/// the staging buffer having been released.
pub open spec fn transferred<C: Controller, M: DeviceMemory>(
    before: NvmeDriver<C, M>,
    after: NvmeDriver<C, M>,
) -> bool {
    &&& after.wf()
    &&& after.irq() == before.irq()
    &&& after.capacity() == before.capacity()
    &&& after.queue_pairs() == before.queue_pairs()
    &&& after.controller().namespaces() == before.controller().namespaces()
    &&& after.controller().data() == before.controller().data()
    &&& after.controller().queue_pairs() == before.controller().queue_pairs()
    &&& same_allocations(before.memory(), after.memory())
}

/// Why a transfer of `len` bytes through the queue pair that `id` names
/// fails, if it fails: the buffer is too big; or there is no memory for the
/// staging buffer; or the identifier names no live queue pair; or the
/// controller does not carry the transfer out, which `accepted` tells and
/// `failed` reports.
pub open spec fn transfer_error<C: Controller, M: DeviceMemory>(
    driver: NvmeDriver<C, M>,
    id: IoQueuePairId,
    len: usize,
    accepted: bool,
    failed: SysNvmeError,
) -> Option<SysNvmeError> {
    if too_big(len, driver.controller().data().max_transfer_size) {
        Some(SysNvmeError::BufferTooBig)
    } else if driver.memory().grants(DmaLayout::page_aligned_layout(len).unwrap()) is None {
        Some(SysNvmeError::CouldNotAllocateMemory)
    } else if !driver.queue_pairs().contains_key(id.0) {
        Some(SysNvmeError::CouldNotFindIoQueuePair)
    } else if !accepted {
        Some(failed)
    } else {
        None
    }
}

/// What a transfer has cost: a buffer that is too big, or memory that is
/// exhausted, fails before anything was allocated or submitted; an
/// identifier that names no live queue pair fails before anything was
/// submitted; every other transfer took one allocation and one submission.
pub open spec fn transfer_cost<C: Controller, M: DeviceMemory>(
    before: NvmeDriver<C, M>,
    after: NvmeDriver<C, M>,
    outcome: Result<(), SysNvmeError>,
) -> bool {
    let allocated: nat = if outcome == Err::<(), SysNvmeError>(SysNvmeError::BufferTooBig) || outcome
        == Err::<(), SysNvmeError>(SysNvmeError::CouldNotAllocateMemory) {
        0
    } else {
        1
    };
    let submitted: nat = if allocated == 0 || outcome == Err::<(), SysNvmeError>(
        SysNvmeError::CouldNotFindIoQueuePair,
    ) {
        0
    } else {
        1
    };
    &&& after.memory().granted() == before.memory().granted() + allocated
    &&& after.controller().transfers() == before.controller().transfers() + submitted
}

/// Where in its namespace a transfer through the queue pair that `id`
/// names starts, in bytes.
pub open spec fn transfer_offset<C: Controller, M: DeviceMemory>(
    driver: NvmeDriver<C, M>,
    id: IoQueuePairId,
    logical_block_address: u64,
) -> int {
    logical_block_address * driver.controller().namespaces()[driver.queue_pairs()[id.0].namespace as int].block_size
}

/// What a read through the queue pair that `id` names leaves behind.
///
/// On success the range lay within the namespace and the buffer holds its
/// bytes. On failure the answer says why, and the buffer is as it was. No
/// namespace has changed.
pub open spec fn read_done<C: Controller, M: DeviceMemory>(
    before: NvmeDriver<C, M>,
    after: NvmeDriver<C, M>,
    id: IoQueuePairId,
    buffer_before: Seq<u8>,
    buffer_after: Seq<u8>,
    logical_block_address: u64,
    outcome: Result<(), SysNvmeError>,
) -> bool {
    let handle = before.queue_pairs()[id.0];
    let offset = transfer_offset(before, id, logical_block_address);
    let len = buffer_before.len() as usize;
    &&& transferred(before, after)
    &&& transfer_cost(before, after, outcome)
    &&& same_storage(before.controller(), after.controller())
    &&& buffer_after.len() == buffer_before.len()
    &&& outcome == (match transfer_error(
        before,
        id,
        len,
        before.controller().reads(handle, len, logical_block_address),
        SysNvmeError::CouldNotReadFromIoQueuePair,
    ) {
        Some(error) => Err(error),
        None => Ok(()),
    })
    &&& match outcome {
        Ok(_) => {
            &&& in_range(before.controller().storage(handle.namespace), offset, len as int)
            &&& buffer_after == storage_read(
                before.controller().storage(handle.namespace),
                offset,
                len as int,
            )
        },
        Err(_) => buffer_after == buffer_before,
    }
}

/// What a write through the queue pair that `id` names leaves behind.
///
/// On success the range lay within the namespace and now holds the bytes of
/// the buffer, and every other namespace is as it was. On failure the
/// answer says why, and no namespace has changed.
pub open spec fn write_done<C: Controller, M: DeviceMemory>(
    before: NvmeDriver<C, M>,
    after: NvmeDriver<C, M>,
    id: IoQueuePairId,
    buffer: Seq<u8>,
    logical_block_address: u64,
    outcome: Result<(), SysNvmeError>,
) -> bool {
    let handle = before.queue_pairs()[id.0];
    let offset = transfer_offset(before, id, logical_block_address);
    let len = buffer.len() as usize;
    &&& transferred(before, after)
    &&& transfer_cost(before, after, outcome)
    &&& outcome == (match transfer_error(
        before,
        id,
        len,
        before.controller().writes(handle, len, logical_block_address),
        SysNvmeError::CouldNotWriteToIoQueuePair,
    ) {
        Some(error) => Err(error),
        None => Ok(()),
    })
    &&& match outcome {
        Ok(_) => {
            &&& in_range(before.controller().storage(handle.namespace), offset, len as int)
            &&& after.controller().storage(handle.namespace) == storage_write(
                before.controller().storage(handle.namespace),
                offset,
                buffer,
            )
            &&& same_storage_but(before.controller(), after.controller(), handle.namespace)
        },
        Err(_) => same_storage(before.controller(), after.controller()),
    }
}

/// Reading through a queue pair what was written through it to the same
/// block yields the bytes that were written, byte for byte.
pub proof fn lemma_round_trip<C: Controller, M: DeviceMemory>(
    start: NvmeDriver<C, M>,
    written: NvmeDriver<C, M>,
    read: NvmeDriver<C, M>,
    id: IoQueuePairId,
    data: Seq<u8>,
    buffer_before: Seq<u8>,
    buffer_after: Seq<u8>,
    logical_block_address: u64,
)
    requires
        buffer_before.len() == data.len(),
        write_done(start, written, id, data, logical_block_address, Ok(())),
        read_done(written, read, id, buffer_before, buffer_after, logical_block_address, Ok(())),
    ensures
        buffer_after == data,
{
    let namespace = start.queue_pairs()[id.0].namespace;
    let offset = transfer_offset(start, id, logical_block_address);
    crate::controller::lemma_write_then_read(start.controller().storage(namespace), offset, data);
}

/// The driver of one NVMe device.
pub struct NvmeDriver<C: Controller, M: DeviceMemory> {
    irq: InterruptLine,
    controller: C,
    memory: M,
    io_queue_pairs: QueuePairRegistry,
}

impl<C: Controller, M: DeviceMemory> NvmeDriver<C, M> {
    /// The controller.
    pub closed spec fn controller(&self) -> C {
        self.controller
    }

    /// The device memory from which the driver takes its staging buffers.
    pub closed spec fn memory(&self) -> M {
        self.memory
    }

    /// The live queue pairs: the handle of each, by its identifier.
    pub closed spec fn queue_pairs(&self) -> Map<usize, QueuePairHandle> {
        self.io_queue_pairs@
    }

    /// The most queue pairs that are live at a time.
    pub closed spec fn capacity(&self) -> usize {
        self.io_queue_pairs.spec_capacity()
    }

    /// The interrupt line of the device.
    pub closed spec fn irq(&self) -> InterruptLine {
        self.irq
    }

    /// The registry holds distinct handles, all of them live on the
    /// controller.
    pub closed spec fn wf(&self) -> bool {
        &&& self.controller.inv()
        &&& self.memory.inv()
        &&& self.io_queue_pairs.wf()
        &&& forall|id: usize| #[trigger]
            self.io_queue_pairs@.contains_key(id) ==> self.controller.queue_pairs().contains(
                self.io_queue_pairs@[id],
            )
        &&& forall|a: usize, b: usize|
            self.io_queue_pairs@.contains_key(a) && self.io_queue_pairs@.contains_key(b) && a != b
                ==> #[trigger] self.io_queue_pairs@[a] != #[trigger] self.io_queue_pairs@[b]
    }

    /// What `wf` says of the parts of the driver.
    pub proof fn lemma_wf(&self)
        requires
            self.wf(),
        ensures
            self.controller().inv(),
            self.memory().inv(),
            self.queue_pairs().dom().finite(),
            self.queue_pairs().dom().len() <= self.capacity(),
            forall|id: usize| self.queue_pairs().contains_key(id) ==> id < self.capacity(),
            forall|id: usize| #[trigger]
                self.queue_pairs().contains_key(id) ==> self.controller().queue_pairs().contains(
                    self.queue_pairs()[id],
                ),
    {
        self.io_queue_pairs.lemma_wf();
    }

    /// Puts a driver together from what probing the device gave: the
    /// address and size at which the registers of the device are mapped, if
    /// they could be mapped; the controller, if it accepted the hardware;
    /// and the interrupt line, if the device has one.
    ///
    /// Fails when any of them is missing. A new driver has no queue pair.
    pub fn init(
        bar: Option<(usize, usize)>,
        controller: Result<C, ControllerError>,
        memory: M,
        irq: Option<InterruptLine>,
    ) -> (driver: Result<Self, ()>)
        requires
            controller matches Ok(c) ==> c.inv(),
            memory.inv(),
        ensures
            driver is Ok <==> bar is Some && controller is Ok && irq is Some,
            driver matches Ok(driver) ==> {
                &&& driver.wf()
                &&& driver.controller() == controller->Ok_0
                &&& driver.memory() == memory
                &&& driver.irq() == irq->Some_0
                &&& driver.capacity() == MAX_NUMBER_OF_QUEUE_PAIRS
                &&& driver.queue_pairs() == Map::<usize, QueuePairHandle>::empty()
            },
    {
        if bar.is_none() {
            return Err(());
        }
        let controller = match controller {
            Ok(controller) => controller,
            Err(_) => { return Err(()); },
        };
        let irq = match irq {
            Some(irq) => irq,
            None => { return Err(()); },
        };
        Ok(
            NvmeDriver {
                irq,
                controller,
                memory,
                io_queue_pairs: QueuePairRegistry::new(MAX_NUMBER_OF_QUEUE_PAIRS),
            },
        )
    }

    /// The controller.
    pub fn get_controller(&self) -> (controller: &C)
        ensures
            *controller == self.controller(),
    {
        &self.controller
    }

    /// The device memory from which the driver takes its staging buffers.
    pub fn get_memory(&self) -> (memory: &M)
        ensures
            *memory == self.memory(),
    {
        &self.memory
    }

    /// The interrupt line of the device.
    pub fn get_interrupt_number(&self) -> (irq: InterruptLine)
        ensures
            irq == self.irq(),
    {
        self.irq
    }

    /// The name of the driver.
    pub fn get_name(&self) -> (name: &'static str)
        ensures
            name@ == "nvme"@,
    {
        "nvme"
    }

    /// Asks the controller how many namespaces the device has.
    pub fn get_number_of_namespaces(&mut self) -> (count: Result<usize, SysNvmeError>)
        requires
            old(self).wf(),
        ensures
            counted(*old(self), *final(self), count),
    {
        let list = self.controller.identify_namespaces(0);
        count_namespaces(&list)
    }

    /// The most bytes one transfer moves.
    pub fn get_max_buffer_size(&mut self) -> (size: usize)
        requires
            old(self).wf(),
        ensures
            *final(self) == *old(self),
            size == old(self).controller().data().max_transfer_size,
    {
        self.controller.controller_data().max_transfer_size
    }

    /// The most entries a queue has.
    pub fn get_max_number_of_queue_entries(&mut self) -> (entries: u16)
        requires
            old(self).wf(),
        ensures
            *final(self) == *old(self),
            entries == old(self).controller().data().max_queue_entries,
    {
        self.controller.controller_data().max_queue_entries
    }

    /// The size in bytes of the namespace at `namespace_index`.
    ///
    /// An index at or beyond the number of namespaces is answered with
    /// `NamespaceDoesNotExist`.
    pub fn get_size_of_namespace(&mut self, namespace_index: usize) -> (size: Result<
        u64,
        SysNvmeError,
    >)
        requires
            old(self).wf(),
        ensures
            sized(*old(self), *final(self), namespace_index, size),
    {
        let list = self.controller.identify_namespaces(0);
        proof {
            self.controller.lemma_inv();
        }
        match select_namespace(&list, namespace_index) {
            Ok(namespace) => Ok(namespace.byte_size()),
            Err(error) => Err(error),
        }
    }

    /// Creates a queue pair of `number_of_entries` entries for the namespace
    /// at `namespace_index` and returns its identifier, the lowest that was
    /// free.
    ///
    /// When as many queue pairs are live as the driver keeps, the controller
    /// is not asked to build one and the result is
    /// `MaxNumberOfQueuesReached`. Whatever goes wrong, the live queue pairs
    /// stay as they were.
    pub fn create_io_queue_pair(&mut self, namespace_index: usize, number_of_entries: u16) -> (id:
        Result<IoQueuePairId, SysNvmeError>)
        requires
            old(self).wf(),
        ensures
            created(*old(self), *final(self), namespace_index, number_of_entries, id),
    {
        let list = self.controller.identify_namespaces(0);
        proof {
            self.controller.lemma_inv();
            self.io_queue_pairs.lemma_wf();
        }
        let namespace = match select_namespace(&list, namespace_index) {
            Ok(namespace) => namespace,
            Err(error) => { return Err(error); },
        };
        if self.io_queue_pairs.is_full() {
            return Err(SysNvmeError::MaxNumberOfQueuesReached);
        }
        let handle = match self.controller.create_io_queue_pair(namespace, number_of_entries as usize) {
            Ok(handle) => handle,
            Err(_) => { return Err(SysNvmeError::CouldNotCreateIoQueuePair); },
        };
        match self.io_queue_pairs.register(handle) {
            Some(id) => {
                assert(self.io_queue_pairs@.dom() =~= old(self).io_queue_pairs@.dom().insert(id.0));
                Ok(id)
            },
            None => Err(SysNvmeError::MaxNumberOfQueuesReached),
        }
    }

    /// Deletes the queue pair that `io_queue_pair_id` names and has the
    /// controller tear it down.
    ///
    /// An identifier that names no live queue pair is answered with
    /// `CouldNotFindIoQueuePair`, and nothing changes. When the controller
    /// fails to tear the queue pair down, the identifier is free all the
    /// same and the result is `CouldNotDeleteIoQueuePair`.
    pub fn delete_io_queue_pair(&mut self, io_queue_pair_id: IoQueuePairId) -> (outcome: Result<
        (),
        SysNvmeError,
    >)
        requires
            old(self).wf(),
        ensures
            deleted(*old(self), *final(self), io_queue_pair_id, outcome),
    {
        let handle = match self.io_queue_pairs.unregister(io_queue_pair_id) {
            Some(handle) => handle,
            None => { return Err(SysNvmeError::CouldNotFindIoQueuePair); },
        };
        let torn_down = self.controller.delete_io_queue_pair(handle);
        proof {
            assert forall|id: usize| #[trigger]
                self.io_queue_pairs@.contains_key(id) implies self.controller.queue_pairs().contains(
                self.io_queue_pairs@[id],
            ) by {
                let other = self.io_queue_pairs@[id];
                assert(old(self).io_queue_pairs@.contains_key(id));
                assert(old(self).io_queue_pairs@.contains_key(io_queue_pair_id.0));
                assert(other != handle);
                assert(old(self).controller.queue_pairs().remove(handle).contains(other));
            }
        }
        match torn_down {
            Ok(_) => Ok(()),
            Err(_) => Err(SysNvmeError::CouldNotDeleteIoQueuePair),
        }
    }

    /// Reads `buffer.len()` bytes from block `logical_block_address` of the
    /// namespace behind a queue pair into `buffer`.
    ///
    /// The bytes arrive in a staging buffer, which is released whatever the
    /// outcome. On failure `buffer` is as it was.
    pub fn read_from_io_queue_pair(
        &mut self,
        io_queue_pair_id: &IoQueuePairId,
        buffer: &mut [u8],
        logical_block_address: u64,
    ) -> (outcome: Result<(), SysNvmeError>)
        requires
            old(self).wf(),
        ensures
            read_done(
                *old(self),
                *final(self),
                *io_queue_pair_id,
                old(buffer)@,
                final(buffer)@,
                logical_block_address,
                outcome,
            ),
    {
        proof {
            self.io_queue_pairs.lemma_wf();
            self.memory.lemma_inv();
        }
        let len = buffer.len();
        let max_transfer_size = self.controller.controller_data().max_transfer_size;
        let layout = match staging_layout(len, max_transfer_size) {
            Ok(layout) => layout,
            Err(error) => { return Err(error); },
        };
        let address = match self.memory.allocate(layout) {
            Some(address) => address,
            None => { return Err(SysNvmeError::CouldNotAllocateMemory); },
        };
        let outcome = match self.io_queue_pairs.get(io_queue_pair_id) {
            None => Err(SysNvmeError::CouldNotFindIoQueuePair),
            Some(handle) => {
                match self.controller.read(handle, &mut self.memory, address, len, logical_block_address) {
                    Ok(_) => {
                        proof {
                            self.memory.lemma_inv();
                        }
                        let data = self.memory.load(address, len);
                        copy_to_caller(buffer, &data);
                        Ok(())
                    },
                    Err(_) => Err(SysNvmeError::CouldNotReadFromIoQueuePair),
                }
            },
        };
        self.memory.deallocate(address, layout);
        assert(self.memory.allocations() =~= old(self).memory.allocations());
        outcome
    }

    /// Writes `buffer` to block `logical_block_address` of the namespace
    /// behind a queue pair.
    ///
    /// The bytes leave from a staging buffer, which is released whatever the
    /// outcome. On failure no namespace has changed.
    pub fn write_to_io_queue_pair(
        &mut self,
        io_queue_pair_id: &IoQueuePairId,
        buffer: &[u8],
        logical_block_address: u64,
    ) -> (outcome: Result<(), SysNvmeError>)
        requires
            old(self).wf(),
        ensures
            write_done(
                *old(self),
                *final(self),
                *io_queue_pair_id,
                buffer@,
                logical_block_address,
                outcome,
            ),
    {
        proof {
            self.io_queue_pairs.lemma_wf();
            self.memory.lemma_inv();
        }
        let len = buffer.len();
        let max_transfer_size = self.controller.controller_data().max_transfer_size;
        let layout = match staging_layout(len, max_transfer_size) {
            Ok(layout) => layout,
            Err(error) => { return Err(error); },
        };
        let address = match self.memory.allocate(layout) {
            Some(address) => address,
            None => { return Err(SysNvmeError::CouldNotAllocateMemory); },
        };
        self.memory.store(address, buffer);
        proof {
            self.memory.lemma_inv();
            assert(self.memory.bytes(address).take(len as int) =~= buffer@);
        }
        let outcome = match self.io_queue_pairs.get(io_queue_pair_id) {
            None => Err(SysNvmeError::CouldNotFindIoQueuePair),
            Some(handle) => {
                match self.controller.write(handle, &self.memory, address, len, logical_block_address) {
                    Ok(_) => Ok(()),
                    Err(_) => Err(SysNvmeError::CouldNotWriteToIoQueuePair),
                }
            },
        };
        self.memory.deallocate(address, layout);
        assert(self.memory.allocations() =~= old(self).memory.allocations());
        outcome
    }
}

} // verus!
