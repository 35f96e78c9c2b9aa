//! Device memory that lives in ordinary memory.
//!
//! An [`Arena`] hands out page-aligned addresses from a range of its own and
//! keeps the bytes of every allocation in a vector. It serves where no
//! device is at hand, and shows that the contract of
//! [`DeviceMemory`](crate::memory::DeviceMemory) can be met.

use vstd::prelude::*;
use crate::address::{canonical, is_canonical};
use crate::layout::{DmaLayout, BASE_PAGE_SIZE};
use crate::memory::DeviceMemory;

verus! {

/// One live allocation of an arena.
pub struct Region {
    pub address: usize,
    pub layout: DmaLayout,
    pub bytes: Vec<u8>,
}

/// Whether one of `regions` starts at `address`.
pub open spec fn holds(regions: Seq<Region>, address: usize) -> bool {
    exists|i: int| 0 <= i < regions.len() && (#[trigger] regions[i]).address == address
}

/// The position of the region that starts at `address`.
pub open spec fn position(regions: Seq<Region>, address: usize) -> int {
    choose|i: int| 0 <= i < regions.len() && (#[trigger] regions[i]).address == address
}

/// Whether the regions are in ascending order of their addresses.
pub open spec fn ascending(regions: Seq<Region>) -> bool {
    forall|i: int, j: int|
        0 <= i < j < regions.len() ==> (#[trigger] regions[i]).address < (#[trigger] regions[j]).address
}

/// In ascending regions an address is found at one position only.
pub proof fn lemma_position(regions: Seq<Region>, i: int)
    requires
        ascending(regions),
        0 <= i < regions.len(),
    ensures
        holds(regions, regions[i].address),
        position(regions, regions[i].address) == i,
{
    let p = position(regions, regions[i].address);
    if p < i {
        assert(regions[p].address < regions[i].address);
    }
    if i < p {
        assert(regions[i].address < regions[p].address);
    }
}

/// Device memory in ordinary memory: a range of addresses, of which the
/// part below `next` has been handed out.
pub struct Arena {
    regions: Vec<Region>,
    next: usize,
    limit: usize,
    granted: Ghost<nat>,
}

/// The first page boundary at or above `base`, or the last one below it if
/// there is none above.
pub open spec fn first_page(base: usize) -> usize {
    if base % BASE_PAGE_SIZE == 0 {
        base
    } else if base - base % BASE_PAGE_SIZE <= usize::MAX - BASE_PAGE_SIZE {
        (base - base % BASE_PAGE_SIZE + BASE_PAGE_SIZE) as usize
    } else {
        (base - base % BASE_PAGE_SIZE) as usize
    }
}

/// How many pages an allocation of `size` bytes takes: as many as hold its
/// bytes, and at least one.
pub open spec fn pages_for(size: usize) -> int {
    if size == 0 {
        1
    } else {
        (size + (BASE_PAGE_SIZE - 1)) / (BASE_PAGE_SIZE as int)
    }
}

impl Arena {
    /// The address that the next allocation gets.
    pub closed spec fn spec_next(&self) -> usize {
        self.next
    }

    /// The address at which the range of the arena ends.
    pub closed spec fn spec_limit(&self) -> usize {
        self.limit
    }

    /// What the arena grants: the address that the next allocation gets,
    /// as long as that address is canonical and the pages of the allocation
    /// end within the range.
    pub proof fn lemma_grants(&self, layout: DmaLayout)
        ensures
            self.grants(layout) == (if pages_for(layout.size) <= (self.spec_limit() - self.spec_next())
                / (BASE_PAGE_SIZE as int) && is_canonical(self.spec_next() as u64) {
                Some(self.spec_next())
            } else {
                None
            }),
    {
    }

    /// An arena that hands out the addresses from `base` up to `limit`.
    /// `base` is rounded up to a page boundary; an arena whose range holds
    /// no page grants nothing.
    pub fn new(base: usize, limit: usize) -> (arena: Self)
        ensures
            arena.inv(),
            arena.allocations() == Map::<usize, DmaLayout>::empty(),
            arena.granted() == 0,
            arena.spec_next() == first_page(base),
            arena.spec_limit() == (if base % BASE_PAGE_SIZE != 0 && base - base % BASE_PAGE_SIZE
                > usize::MAX - BASE_PAGE_SIZE || limit < first_page(base) {
                first_page(base)
            } else {
                limit
            }),
    {
        let rest = base % BASE_PAGE_SIZE;
        let (next, limit) = if rest == 0 {
            (base, limit)
        } else if base - rest <= usize::MAX - BASE_PAGE_SIZE {
            (base - rest + BASE_PAGE_SIZE, limit)
        } else {
            (base - rest, base - rest)
        };
        let arena = Arena {
            regions: Vec::new(),
            next,
            limit: if limit < next { next } else { limit },
            granted: Ghost(0),
        };
        assert(arena.allocations() =~= Map::<usize, DmaLayout>::empty());
        arena
    }

    /// The address that the next allocation gets.
    pub fn next_address(&self) -> (next: usize)
        ensures
            next == self.spec_next(),
    {
        self.next
    }

    /// The position of the region that starts at `address`, if there is one.
    fn find(&self, address: usize) -> (found: Option<usize>)
        requires
            self.inv(),
        ensures
            match found {
                Some(i) => i < self.regions@.len() && self.regions@[i as int].address == address
                    && position(self.regions@, address) == i && holds(self.regions@, address),
                None => !holds(self.regions@, address),
            },
    {
        let mut i: usize = 0;
        while i < self.regions.len()
            invariant
                self.inv(),
                i <= self.regions@.len(),
                forall|j: int| 0 <= j < i ==> (#[trigger] self.regions@[j]).address != address,
            decreases self.regions@.len() - i,
        {
            if self.regions[i].address == address {
                proof {
                    lemma_position(self.regions@, i as int);
                }
                return Some(i);
            }
            i += 1;
        }
        None
    }
}

impl DeviceMemory for Arena {
    closed spec fn inv(&self) -> bool {
        &&& ascending(self.regions@)
        &&& self.next % BASE_PAGE_SIZE == 0
        &&& self.next <= self.limit
        &&& forall|i: int|
            0 <= i < self.regions@.len() ==> {
                &&& (#[trigger] self.regions@[i]).bytes@.len() == self.regions@[i].layout.size
                &&& self.regions@[i].address < self.next
                &&& is_canonical(self.regions@[i].address as u64)
            }
    }

    closed spec fn allocations(&self) -> Map<usize, DmaLayout> {
        Map::new(
            |address: usize| holds(self.regions@, address),
            |address: usize| self.regions@[position(self.regions@, address)].layout,
        )
    }

    closed spec fn bytes(&self, address: usize) -> Seq<u8> {
        self.regions@[position(self.regions@, address)].bytes@
    }

    closed spec fn physical(&self, address: usize) -> Option<usize> {
        if holds(self.regions@, address) {
            Some(address)
        } else {
            None
        }
    }

    closed spec fn granted(&self) -> nat {
        self.granted@
    }

    closed spec fn grants(&self, layout: DmaLayout) -> Option<usize> {
        if pages_for(layout.size) <= (self.limit - self.next) / (BASE_PAGE_SIZE as int) && is_canonical(
            self.next as u64,
        ) {
            Some(self.next)
        } else {
            None
        }
    }

    proof fn lemma_inv(&self) {
        let addresses = Set::new(|address: usize| address < self.next);
        assert(addresses =~= crate::registry::ids_below(self.next));
        crate::registry::lemma_ids_below(self.next);
        assert(self.allocations().dom().subset_of(addresses));
        vstd::set_lib::lemma_len_subset(self.allocations().dom(), addresses);
    }

    fn allocate(&mut self, layout: DmaLayout) -> (address: Option<usize>)
        ensures
            address == (if pages_for(layout.size) <= (old(self).spec_limit() - old(self).spec_next())
                / (BASE_PAGE_SIZE as int) && is_canonical(old(self).spec_next() as u64) {
                Some(old(self).spec_next())
            } else {
                None
            }),
            final(self).spec_limit() == old(self).spec_limit(),
            final(self).spec_next() == (if address is Some {
                old(self).spec_next() + pages_for(layout.size) * BASE_PAGE_SIZE
            } else {
                old(self).spec_next() as int
            }),
    {
        let pages = if layout.size == 0 {
            1
        } else {
            (layout.size + (BASE_PAGE_SIZE - 1)) / BASE_PAGE_SIZE
        };
        if pages > (self.limit - self.next) / BASE_PAGE_SIZE {
            return None;
        }
        if canonical(self.next as u64).is_none() {
            return None;
        }
        let address = self.next;
        let region = Region { address, layout, bytes: vec![0u8; layout.size] };
        self.regions.push(region);
        self.next = address + pages * BASE_PAGE_SIZE;
        self.granted = Ghost((self.granted@ + 1) as nat);
        proof {
            let before = old(self).regions@;
            let after = self.regions@;
            assert(ascending(after));
            assert forall|a: usize| holds(before, a) implies holds(after, a) && position(after, a)
                == position(before, a) by {
                let p = position(before, a);
                assert(after[p].address == a);
                lemma_position(after, p);
            }
            assert(!holds(before, address));
            lemma_position(after, after.len() - 1);
            assert forall|a: usize| holds(after, a) implies holds(before, a) || a == address by {
                let p = position(after, a);
                if p < before.len() {
                    assert(before[p].address == a);
                }
            }
            assert(self.allocations() =~= old(self).allocations().insert(address, layout));
        }
        Some(address)
    }

    fn deallocate(&mut self, address: usize, layout: DmaLayout)
        ensures
            final(self).spec_next() == old(self).spec_next(),
            final(self).spec_limit() == old(self).spec_limit(),
    {
        let found = self.find(address);
        let i = found.unwrap();
        self.regions.remove(i);
        proof {
            let before = old(self).regions@;
            let after = self.regions@;
            assert(ascending(after)) by {
                assert forall|a: int, b: int| 0 <= a < b < after.len() implies (#[trigger] after[a]).address
                    < (#[trigger] after[b]).address by {
                    let x = if a < i { a } else { a + 1 };
                    let y = if b < i { b } else { b + 1 };
                    assert(before[x].address < before[y].address);
                }
            }
            assert forall|k: int| 0 <= k < after.len() implies holds(before, (#[trigger] after[k]).address)
                && after[k].address != address && before[position(before, after[k].address)]
                == after[k] by {
                let x = if k < i { k } else { k + 1 };
                assert(before[x] == after[k]);
                lemma_position(before, x);
                lemma_position(before, i as int);
            }
            assert forall|a: usize| holds(before, a) && a != address implies holds(after, a)
                && after[position(after, a)] == before[position(before, a)] by {
                let p = position(before, a);
                let k = if p < i { p } else { p - 1 };
                assert(after[k] == before[p]);
                lemma_position(after, k);
            }
            assert forall|a: usize| holds(after, a) implies holds(before, a) && a != address by {
                let k = position(after, a);
                assert(after[k].address == a);
            }
            assert(self.allocations() =~= old(self).allocations().remove(address));
        }
    }

    fn translate(&self, address: usize) -> (physical: Option<usize>) {
        match self.find(address) {
            Some(_) => Some(address),
            None => None,
        }
    }

    fn store(&mut self, address: usize, data: &[u8])
        ensures
            final(self).spec_next() == old(self).spec_next(),
            final(self).spec_limit() == old(self).spec_limit(),
    {
        let found = self.find(address);
        let i = found.unwrap();
        let mut bytes: Vec<u8> = Vec::new();
        let size = self.regions[i].layout.size;
        let mut k: usize = 0;
        while k < size
            invariant
                i < self.regions@.len(),
                self.regions@[i as int].bytes@.len() == size,
                data@.len() <= size,
                k <= size,
                bytes@.len() == k,
                forall|j: int|
                    0 <= j < k ==> bytes@[j] == (if j < data@.len() {
                        data@[j]
                    } else {
                        self.regions@[i as int].bytes@[j]
                    }),
            decreases size - k,
        {
            let byte = if k < data.len() {
                data[k]
            } else {
                self.regions[i].bytes[k]
            };
            bytes.push(byte);
            k += 1;
        }
        let layout = self.regions[i].layout;
        self.regions[i] = Region { address, layout, bytes };
        proof {
            let before = old(self).regions@;
            let after = self.regions@;
            assert(ascending(after));
            assert forall|a: usize| holds(before, a) implies holds(after, a) && position(after, a)
                == position(before, a) by {
                let p = position(before, a);
                assert(after[p].address == a);
                lemma_position(after, p);
            }
            assert forall|a: usize| holds(after, a) implies holds(before, a) by {
                let p = position(after, a);
                assert(before[p].address == a);
            }
            assert(self.allocations() =~= old(self).allocations());
            assert(self.bytes(address) =~= data@ + old(self).bytes(address).skip(data@.len() as int));
        }
    }

    fn load(&self, address: usize, len: usize) -> (data: Vec<u8>) {
        let found = self.find(address);
        let i = found.unwrap();
        let mut data: Vec<u8> = Vec::new();
        let mut k: usize = 0;
        while k < len
            invariant
                i < self.regions@.len(),
                len <= self.regions@[i as int].bytes@.len(),
                k <= len,
                data@.len() == k,
                forall|j: int| 0 <= j < k ==> data@[j] == self.regions@[i as int].bytes@[j],
            decreases len - k,
        {
            data.push(self.regions[i].bytes[k]);
            k += 1;
        }
        assert(data@ =~= self.bytes(address).take(len as int));
        data
    }
}

} // verus!
