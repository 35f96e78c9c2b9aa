//! The kernel's device memory, as the driver sees it.
//!
//! Device memory is where DMA-capable allocations come from: page-aligned,
//! address-translatable regions that both the processor and the storage
//! controller can reach. The driver is generic over the [`DeviceMemory`]
//! capability; [`crate::arena::Arena`] is an implementation of it that lives
//! in ordinary memory.

use vstd::prelude::*;
use crate::address::is_canonical;
use crate::layout::DmaLayout;

verus! {

/// A source of DMA-capable memory.
///
/// A value of this type stands for the allocations that were made through it
/// and are still live. Every allocation is named by the address at which it
/// starts.
pub trait DeviceMemory: Sized {
    /// The invariant of the implementation.
    spec fn inv(&self) -> bool;

    /// The live allocations: the layout of each, by its address.
    spec fn allocations(&self) -> Map<usize, DmaLayout>;

    /// The bytes that the live allocation at `address` holds.
    spec fn bytes(&self, address: usize) -> Seq<u8>;

    /// The physical address that `address` is mapped to, if it is mapped.
    spec fn physical(&self, address: usize) -> Option<usize>;

    /// How many allocations have been granted so far.
    spec fn granted(&self) -> nat;

    /// The address that an allocation of `layout` would get now, or `None`
    /// if the memory has no room for it.
    spec fn grants(&self, layout: DmaLayout) -> Option<usize>;

    /// There are finitely many live allocations. Every one of them holds as
    /// many bytes as its layout says, and starts at a canonical address
    /// that is mapped.
    proof fn lemma_inv(&self)
        requires
            self.inv(),
        ensures
            self.allocations().dom().finite(),
            forall|address: usize| #[trigger]
                self.allocations().contains_key(address) ==> {
                    &&& self.bytes(address).len() == self.allocations()[address].size
                    &&& is_canonical(address as u64)
                    &&& self.physical(address) is Some
                },
    ;

    /// Obtains a fresh allocation of the given layout, or `None` when the
    /// memory is exhausted, in which case nothing changes. The allocation
    /// starts at an aligned, canonical address that is mapped.
    fn allocate(&mut self, layout: DmaLayout) -> (address: Option<usize>)
        requires
            old(self).inv(),
            layout.valid(),
        ensures
            final(self).inv(),
            address == old(self).grants(layout),
            match address {
                Some(address) => {
                    &&& !old(self).allocations().contains_key(address)
                    &&& final(self).allocations() == old(self).allocations().insert(address, layout)
                    &&& final(self).granted() == old(self).granted() + 1
                    &&& address % layout.align == 0
                    &&& is_canonical(address as u64)
                    &&& final(self).physical(address) is Some
                    &&& forall|other: usize|
                        old(self).allocations().contains_key(other) ==> #[trigger] final(self).bytes(other)
                            == old(self).bytes(other)
                },
                None => {
                    &&& final(self).allocations() == old(self).allocations()
                    &&& final(self).granted() == old(self).granted()
                    &&& forall|other: usize|
                        old(self).allocations().contains_key(other) ==> #[trigger] final(self).bytes(other)
                            == old(self).bytes(other)
                },
            },
    ;

    /// Releases the live allocation at `address`, whose layout is `layout`.
    fn deallocate(&mut self, address: usize, layout: DmaLayout)
        requires
            old(self).inv(),
            old(self).allocations().contains_key(address),
            old(self).allocations()[address] == layout,
        ensures
            final(self).inv(),
            final(self).allocations() == old(self).allocations().remove(address),
            final(self).granted() == old(self).granted(),
            forall|other: usize|
                other != address && old(self).allocations().contains_key(other) ==> #[trigger] final(self).bytes(other) == old(self).bytes(other),
    ;

    /// The physical address that `address` is mapped to, if it is mapped.
    fn translate(&self, address: usize) -> (physical: Option<usize>)
        requires
            self.inv(),
        ensures
            physical == self.physical(address),
    ;

    /// Copies `data` to the start of the live allocation at `address`.
    fn store(&mut self, address: usize, data: &[u8])
        requires
            old(self).inv(),
            old(self).allocations().contains_key(address),
            data@.len() <= old(self).allocations()[address].size,
        ensures
            final(self).inv(),
            final(self).allocations() == old(self).allocations(),
            final(self).granted() == old(self).granted(),
            final(self).bytes(address) == data@ + old(self).bytes(address).skip(data@.len() as int),
            forall|other: usize|
                other != address && old(self).allocations().contains_key(other) ==> #[trigger] final(self).bytes(other) == old(self).bytes(other),
    ;

    /// Copies the first `len` bytes of the live allocation at `address`.
    fn load(&self, address: usize, len: usize) -> (data: Vec<u8>)
        requires
            self.inv(),
            self.allocations().contains_key(address),
            len <= self.allocations()[address].size,
        ensures
            data@ == self.bytes(address).take(len as int),
    ;
}

/// Two states of a device memory between which nothing has happened: the
/// same allocations with the same bytes, and no allocation granted.
pub open spec fn unchanged<M: DeviceMemory>(before: M, after: M) -> bool {
    &&& after.allocations() == before.allocations()
    &&& after.granted() == before.granted()
    &&& forall|address: usize|
        before.allocations().contains_key(address) ==> #[trigger] after.bytes(address)
            == before.bytes(address)
}

} // verus!
