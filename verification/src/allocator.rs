//! The allocator that serves the controller.
//!
//! The controller asks for memory by size and later names it only by the
//! address it was given. [`NvmeAllocator`] obtains that memory from the
//! kernel's device memory and keeps, for every address it has handed out, the
//! layout under which the memory must be given back.

use vstd::prelude::*;
use crate::address::{canonical, is_canonical};
use crate::layout::{DmaLayout, BASE_PAGE_SIZE};
use crate::memory::DeviceMemory;
use crate::table::WordTable;

verus! {

/// One step in the life of an allocation table.
pub enum AllocationEvent {
    /// `allocate` handed out `address` with `layout`.
    Allocated { address: usize, layout: DmaLayout },
    /// `deallocate` took back `address`.
    Freed { address: usize },
}

/// Whether a table in state `table` accepts `event`: an address is handed
/// out only while it is not tracked, and taken back only while it is.
pub open spec fn accepts(table: Map<usize, DmaLayout>, event: AllocationEvent) -> bool {
    match event {
        AllocationEvent::Allocated { address, layout } => !table.contains_key(address),
        AllocationEvent::Freed { address } => table.contains_key(address),
    }
}

/// The table after `event`.
pub open spec fn table_step(table: Map<usize, DmaLayout>, event: AllocationEvent) -> Map<
    usize,
    DmaLayout,
> {
    match event {
        AllocationEvent::Allocated { address, layout } => table.insert(address, layout),
        AllocationEvent::Freed { address } => table.remove(address),
    }
}

/// The table after all of `events`, starting from an empty one.
pub open spec fn table_after(events: Seq<AllocationEvent>) -> Map<usize, DmaLayout>
    decreases events.len(),
{
    if events.len() == 0 {
        Map::empty()
    } else {
        table_step(table_after(events.drop_last()), events.last())
    }
}

/// Whether every event of `events` is accepted by the table that the events
/// before it leave behind.
pub open spec fn accepted(events: Seq<AllocationEvent>) -> bool
    decreases events.len(),
{
    events.len() > 0 ==> accepted(events.drop_last()) && accepts(
        table_after(events.drop_last()),
        events.last(),
    )
}

/// How many events of `events` hand out `address`.
pub open spec fn times_allocated(events: Seq<AllocationEvent>, address: usize) -> nat
    decreases events.len(),
{
    if events.len() == 0 {
        0
    } else {
        times_allocated(events.drop_last(), address) + (match events.last() {
            AllocationEvent::Allocated { address: a, layout } => if a == address {
                1nat
            } else {
                0nat
            },
            AllocationEvent::Freed { address: a } => 0nat,
        })
    }
}

/// How many events of `events` take back `address`.
pub open spec fn times_freed(events: Seq<AllocationEvent>, address: usize) -> nat
    decreases events.len(),
{
    if events.len() == 0 {
        0
    } else {
        times_freed(events.drop_last(), address) + (match events.last() {
            AllocationEvent::Allocated { address: a, layout } => 0nat,
            AllocationEvent::Freed { address: a } => if a == address {
                1nat
            } else {
                0nat
            },
        })
    }
}

/// In an accepted history an address is tracked exactly when it was handed
/// out once more often than it was taken back; otherwise the two counts agree.
pub proof fn lemma_tracked_iff_outstanding(events: Seq<AllocationEvent>, address: usize)
    requires
        accepted(events),
    ensures
        table_after(events).contains_key(address) ==> times_allocated(events, address)
            == times_freed(events, address) + 1,
        !table_after(events).contains_key(address) ==> times_allocated(events, address)
            == times_freed(events, address),
    decreases events.len(),
{
    if events.len() > 0 {
        lemma_tracked_iff_outstanding(events.drop_last(), address);
    }
}

/// After a history without duplicate frees in which every allocation has
/// been matched by a deallocation, the table is empty again.
pub proof fn lemma_balanced_history_empties_table(events: Seq<AllocationEvent>)
    requires
        accepted(events),
        forall|address: usize| #[trigger]
            times_allocated(events, address) == times_freed(events, address),
    ensures
        table_after(events) == Map::<usize, DmaLayout>::empty(),
{
    assert forall|address: usize| !table_after(events).contains_key(address) by {
        lemma_tracked_iff_outstanding(events, address);
        assert(times_allocated(events, address) == times_freed(events, address));
    }
    assert(table_after(events) =~= Map::<usize, DmaLayout>::empty());
}

/// The allocations that a table of word pairs stands for.
pub open spec fn layouts(entries: Map<usize, (usize, usize)>) -> Map<usize, DmaLayout> {
    Map::new(
        |address: usize| entries.contains_key(address),
        |address: usize| DmaLayout::spec_from_words(entries[address]),
    )
}

/// The record of the allocations that are live: the layout of each, by
/// the address at which it starts.
///
/// The table holds at most one record for an address. It is the whole of
/// what the allocator remembers, and serves on its own wherever memory is
/// obtained by other means.
pub struct AllocationTable {
    allocations: WordTable,
}

impl AllocationTable {
    /// The recorded allocations: the layout of each, by its address.
    pub closed spec fn view(&self) -> Map<usize, DmaLayout> {
        layouts(self.allocations.entries())
    }

    /// The table holds finitely many records.
    pub closed spec fn wf(&self) -> bool {
        self.allocations.entries().dom().finite()
    }

    /// What `wf` says, in terms of the view.
    pub proof fn lemma_wf(&self)
        requires
            self.wf(),
        ensures
            self@.dom().finite(),
    {
        assert(self@.dom() =~= self.allocations.entries().dom());
    }

    /// A table without a record.
    pub fn new() -> (table: Self)
        ensures
            table.wf(),
            table@ == Map::<usize, DmaLayout>::empty(),
    {
        let table = AllocationTable { allocations: WordTable::new() };
        assert(table@ =~= Map::<usize, DmaLayout>::empty());
        table
    }

    /// Whether there is a record for `address`.
    pub fn contains(&self, address: usize) -> (known: bool)
        ensures
            known == self@.contains_key(address),
    {
        self.allocations.contains_key(address)
    }

    /// The number of records.
    pub fn len(&self) -> (count: usize)
        requires
            self.wf(),
        ensures
            count == self@.dom().len(),
    {
        assert(self@.dom() =~= self.allocations.entries().dom());
        self.allocations.len()
    }

    /// Records that `address` was handed out with `layout`.
    ///
    /// An address for which there is a record already is rejected: the
    /// result is `false` and nothing changes.
    pub fn record(&mut self, address: usize, layout: DmaLayout) -> (recorded: bool)
        requires
            old(self).wf(),
        ensures
            final(self).wf(),
            recorded == accepts(old(self)@, AllocationEvent::Allocated { address, layout }),
            final(self)@ == (if recorded {
                table_step(old(self)@, AllocationEvent::Allocated { address, layout })
            } else {
                old(self)@
            }),
    {
        if self.allocations.contains_key(address) {
            return false;
        }
        self.allocations.insert(address, layout.words());
        assert(self@ =~= old(self)@.insert(address, layout));
        true
    }

    /// Removes the record for `address` and returns the layout it held.
    ///
    /// An address for which there is no record, because it was never handed
    /// out or was given back already, is rejected: the result is `None` and
    /// nothing changes.
    pub fn remove(&mut self, address: usize) -> (layout: Option<DmaLayout>)
        requires
            old(self).wf(),
        ensures
            final(self).wf(),
            layout is Some <==> accepts(old(self)@, AllocationEvent::Freed { address }),
            layout matches Some(layout) ==> layout == old(self)@[address],
            final(self)@ == (if layout is Some {
                table_step(old(self)@, AllocationEvent::Freed { address })
            } else {
                old(self)@
            }),
    {
        match self.allocations.remove(address) {
            Some(words) => {
                assert(self@ =~= old(self)@.remove(address));
                Some(DmaLayout::from_words(words))
            },
            None => {
                assert(self@ =~= old(self)@);
                None
            },
        }
    }
}

/// The allocator handed to the controller: device memory together with a
/// record of every allocation made through the allocator.
pub struct NvmeAllocator<M: DeviceMemory> {
    device_allocator: M,
    allocations: AllocationTable,
}

impl<M: DeviceMemory> NvmeAllocator<M> {
    /// The tracked allocations: the layout of each, by its address.
    pub closed spec fn view(&self) -> Map<usize, DmaLayout> {
        self.allocations@
    }

    /// The device memory behind the allocator.
    pub closed spec fn memory(&self) -> M {
        self.device_allocator
    }

    /// Every tracked allocation is live in the device memory under the layout
    /// that the table holds for it.
    pub closed spec fn wf(&self) -> bool {
        &&& self.device_allocator.inv()
        &&& self.allocations.wf()
        &&& self.allocations@.submap_of(self.device_allocator.allocations())
    }

    /// What `wf` says, in terms of the view.
    pub proof fn lemma_wf(&self)
        requires
            self.wf(),
        ensures
            self.memory().inv(),
            self@.dom().finite(),
            self@.submap_of(self.memory().allocations()),
    {
        self.allocations.lemma_wf();
    }

    /// The address that an allocation of `size` bytes would get now, or
    /// `None` if `size` has no page-aligned layout or the device memory has
    /// no room for it.
    pub open spec fn grants(&self, size: usize) -> Option<usize> {
        match DmaLayout::page_aligned_layout(size) {
            Some(layout) => self.memory().grants(layout),
            None => None,
        }
    }

    /// An allocator over `memory` that tracks nothing yet.
    pub fn new(memory: M) -> (allocator: Self)
        requires
            memory.inv(),
        ensures
            allocator.wf(),
            allocator@ == Map::<usize, DmaLayout>::empty(),
            allocator.memory() == memory,
    {
        NvmeAllocator { device_allocator: memory, allocations: AllocationTable::new() }
    }

    /// Every tracked address is canonical and mapped, so that it can be
    /// translated.
    pub proof fn lemma_translates(&self, address: usize)
        requires
            self.wf(),
            self@.contains_key(address),
        ensures
            is_canonical(address as u64),
            self.memory().physical(address) is Some,
    {
        self.device_allocator.lemma_inv();
        assert(self.allocations@.dom().contains(address));
        assert(self.device_allocator.allocations().contains_key(address));
    }

    /// Allocates `size` bytes of page-aligned device memory and records the
    /// allocation under the address that is returned, which is aligned to a
    /// page, canonical and mapped.
    ///
    /// Returns `None`, and changes nothing, when `size` has no page-aligned
    /// layout or the device memory is exhausted.
    pub fn allocate(&mut self, size: usize) -> (address: Option<usize>)
        requires
            old(self).wf(),
        ensures
            final(self).wf(),
            address == old(self).grants(size),
            match address {
                Some(address) => {
                    &&& DmaLayout::page_aligned_layout(size) is Some
                    &&& address % BASE_PAGE_SIZE == 0
                    &&& is_canonical(address as u64)
                    &&& final(self).memory().physical(address) is Some
                    &&& !old(self)@.contains_key(address)
                    &&& !old(self).memory().allocations().contains_key(address)
                    &&& final(self)@ == table_step(
                        old(self)@,
                        AllocationEvent::Allocated {
                            address,
                            layout: DmaLayout::page_aligned_layout(size).unwrap(),
                        },
                    )
                    &&& final(self).memory().allocations() == old(self).memory().allocations().insert(
                        address,
                        DmaLayout::page_aligned_layout(size).unwrap(),
                    )
                    &&& final(self).memory().granted() == old(self).memory().granted() + 1
                    &&& forall|other: usize|
                        old(self).memory().allocations().contains_key(other) ==> #[trigger] final(self).memory().bytes(other) == old(self).memory().bytes(other)
                },
                None => {
                    &&& final(self)@ == old(self)@
                    &&& crate::memory::unchanged(old(self).memory(), final(self).memory())
                },
            },
    {
        let layout = match DmaLayout::page_aligned(size) {
            Some(layout) => layout,
            None => { return None; },
        };
        match self.device_allocator.allocate(layout) {
            Some(address) => {
                proof {
                    if old(self).allocations@.contains_key(address) {
                        assert(old(self).device_allocator.allocations().contains_key(address));
                    }
                }
                self.allocations.record(address, layout);
                assert forall|a: usize| #[trigger]
                    self.allocations@.dom().contains(a) implies self.device_allocator.allocations().dom().contains(
                    a,
                ) && self.allocations@[a] == self.device_allocator.allocations()[a] by {
                    if a != address {
                        assert(old(self).allocations@.dom().contains(a));
                    }
                }
                Some(address)
            },
            None => {
                None
            },
        }
    }

    /// Whether `address` is tracked.
    pub fn contains(&self, address: usize) -> (known: bool)
        ensures
            known == self@.contains_key(address),
    {
        self.allocations.contains(address)
    }

    /// The number of tracked allocations.
    pub fn len(&self) -> (count: usize)
        requires
            self.wf(),
        ensures
            count == self@.dom().len(),
    {
        self.allocations.len()
    }

    /// Gives the allocation at `address`, which is tracked, back to the
    /// device memory and forgets it, returning the layout it had.
    ///
    /// Every other allocation stays as it is.
    pub fn deallocate(&mut self, address: usize) -> (layout: DmaLayout)
        requires
            old(self).wf(),
            old(self)@.contains_key(address),
        ensures
            final(self).wf(),
            layout == old(self)@[address],
            final(self)@ == table_step(old(self)@, AllocationEvent::Freed { address }),
            final(self).memory().allocations() == old(self).memory().allocations().remove(address),
            final(self).memory().granted() == old(self).memory().granted(),
            forall|other: usize|
                other != address && old(self).memory().allocations().contains_key(other)
                    ==> #[trigger] final(self).memory().bytes(other) == old(self).memory().bytes(other),
    {
        let layout = self.allocations.remove(address).unwrap();
        assert(old(self).allocations@.dom().contains(address));
        self.device_allocator.deallocate(address, layout);
        assert forall|a: usize| #[trigger]
            self.allocations@.dom().contains(a) implies self.device_allocator.allocations().dom().contains(
            a,
        ) && self.allocations@[a] == self.device_allocator.allocations()[a] by {
            assert(old(self).allocations@.dom().contains(a));
        }
        layout
    }

    /// Gives the allocation at `address` back if the address is tracked.
    ///
    /// An address that is not tracked, because it was never handed out or was
    /// given back already, is rejected: the result is `None` and nothing
    /// changes.
    pub fn try_deallocate(&mut self, address: usize) -> (layout: Option<DmaLayout>)
        requires
            old(self).wf(),
        ensures
            final(self).wf(),
            layout is Some <==> old(self)@.contains_key(address),
            match layout {
                Some(layout) => {
                    &&& layout == old(self)@[address]
                    &&& final(self)@ == table_step(old(self)@, AllocationEvent::Freed { address })
                    &&& final(self).memory().allocations() == old(self).memory().allocations().remove(address)
                    &&& final(self).memory().granted() == old(self).memory().granted()
                    &&& forall|other: usize|
                        other != address && old(self).memory().allocations().contains_key(other)
                            ==> #[trigger] final(self).memory().bytes(other) == old(self).memory().bytes(other)
                },
                None => {
                    &&& final(self)@ == old(self)@
                    &&& final(self).memory() == old(self).memory()
                },
            },
    {
        if self.allocations.contains(address) {
            Some(self.deallocate(address))
        } else {
            None
        }
    }

    /// The physical address behind `address`, which is canonical and mapped.
    pub fn translate(&self, address: usize) -> (physical: usize)
        requires
            self.wf(),
            is_canonical(address as u64),
            self.memory().physical(address) is Some,
        ensures
            self.memory().physical(address) == Some(physical),
    {
        let virtual_address = canonical(address as u64).unwrap();
        self.device_allocator.translate(virtual_address as usize).unwrap()
    }

    /// The physical address behind `address`, if there is one.
    ///
    /// Returns `None` when `address` is not a canonical virtual address or
    /// the device memory has no mapping for it.
    pub fn try_translate(&self, address: usize) -> (physical: Option<usize>)
        requires
            self.wf(),
        ensures
            physical == (if is_canonical(address as u64) {
                self.memory().physical(address)
            } else {
                None
            }),
    {
        match canonical(address as u64) {
            Some(_) => self.device_allocator.translate(address),
            None => None,
        }
    }
}

} // verus!
