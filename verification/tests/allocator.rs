use hermit_kernel::allocator::{AllocationTable, NvmeAllocator};
use hermit_kernel::arena::Arena;
use hermit_kernel::layout::{DmaLayout, BASE_PAGE_SIZE};
use hermit_kernel::memory::DeviceMemory;
use hermit_kernel::registry::{IoQueuePairId, QueuePairHandle, QueuePairRegistry};

#[test]
fn table_returns_to_empty() {
    let mut allocator = NvmeAllocator::new(Arena::new(0x4000_0000, 0x4010_0000));
    assert_eq!(allocator.len(), 0);
    let a = allocator.allocate(100).unwrap();
    let b = allocator.allocate(5000).unwrap();
    let c = allocator.allocate(0).unwrap();
    assert!(a != b && b != c && a != c);
    assert_eq!(a % BASE_PAGE_SIZE, 0);
    assert_eq!(b % BASE_PAGE_SIZE, 0);
    assert_eq!(c % BASE_PAGE_SIZE, 0);
    assert_eq!(allocator.len(), 3);
    assert!(allocator.contains(a) && allocator.contains(b) && allocator.contains(c));
    assert_eq!(allocator.deallocate(b), DmaLayout { size: 5000, align: BASE_PAGE_SIZE });
    assert_eq!(allocator.len(), 2);
    let d = allocator.allocate(64).unwrap();
    assert!(d != a && d != c);
    assert_eq!(allocator.deallocate(a), DmaLayout { size: 100, align: BASE_PAGE_SIZE });
    assert!(allocator.contains(c));
    assert_eq!(allocator.try_deallocate(c), Some(DmaLayout { size: 0, align: BASE_PAGE_SIZE }));
    assert_eq!(allocator.deallocate(d), DmaLayout { size: 64, align: BASE_PAGE_SIZE });
    assert_eq!(allocator.len(), 0);
}

#[test]
fn unknown_and_repeated_frees_are_rejected() {
    let mut allocator = NvmeAllocator::new(Arena::new(0x4000_0000, 0x4010_0000));
    assert!(!allocator.contains(0x4000_0000));
    assert_eq!(allocator.try_deallocate(0x4000_0000), None);
    let a = allocator.allocate(4096).unwrap();
    assert!(!allocator.contains(a + 4096));
    assert_eq!(allocator.try_deallocate(a + 4096), None);
    assert_eq!(allocator.len(), 1);
    assert!(allocator.contains(a));
    assert_eq!(allocator.try_deallocate(a), Some(DmaLayout { size: 4096, align: BASE_PAGE_SIZE }));
    assert_eq!(allocator.try_deallocate(a), None);
    assert!(!allocator.contains(a));
    assert_eq!(allocator.len(), 0);
}

#[test]
fn exhausted_memory_grants_nothing() {
    let mut allocator = NvmeAllocator::new(Arena::new(0x1000, 0x3000));
    let a = allocator.allocate(4096).unwrap();
    let b = allocator.allocate(1).unwrap();
    assert_eq!(allocator.allocate(1), None);
    assert_eq!(allocator.len(), 2);
    assert!(allocator.contains(a) && allocator.contains(b));
    assert_eq!(allocator.allocate(usize::MAX), None);
    assert_eq!(allocator.len(), 2);
}

#[test]
fn translation_needs_a_canonical_mapped_address() {
    let mut allocator = NvmeAllocator::new(Arena::new(0x1000, 0x10_0000));
    let a = allocator.allocate(16).unwrap();
    assert_eq!(allocator.translate(a), a);
    assert_eq!(allocator.try_translate(a), Some(a));
    assert_eq!(allocator.try_translate(a + 4096), None);
    assert_eq!(allocator.try_translate(0x0000_8000_0000_0000), None);
    assert_eq!(allocator.try_translate(0xffff_7fff_ffff_f000), None);
    allocator.deallocate(a);
    assert_eq!(allocator.try_translate(a), None);
    let mut high = NvmeAllocator::new(Arena::new(0xffff_8000_0000_0000, 0xffff_8000_0010_0000));
    let h = high.allocate(16).unwrap();
    assert_eq!(h, 0xffff_8000_0000_0000);
    assert_eq!(high.translate(h), h);
}

#[test]
fn only_canonical_addresses_are_handed_out() {
    let mut hole = NvmeAllocator::new(Arena::new(0x0000_8000_0000_0000, 0x0000_8000_0010_0000));
    assert_eq!(hole.allocate(16), None);
    assert_eq!(hole.len(), 0);
    let mut edge = NvmeAllocator::new(Arena::new(0x0000_7fff_ffff_e000, 0x0000_8000_0010_0000));
    assert_eq!(edge.allocate(4097), Some(0x0000_7fff_ffff_e000));
    assert_eq!(edge.allocate(1), None);
    assert_eq!(edge.len(), 1);
}

#[test]
fn page_aligned_layouts() {
    assert_eq!(DmaLayout::page_aligned(0), Some(DmaLayout { size: 0, align: 4096 }));
    assert_eq!(DmaLayout::page_aligned(4097), Some(DmaLayout { size: 4097, align: 4096 }));
    let most = isize::MAX as usize - 4095;
    assert_eq!(DmaLayout::page_aligned(most), Some(DmaLayout { size: most, align: 4096 }));
    assert_eq!(DmaLayout::page_aligned(most + 1), None);
    assert_eq!(DmaLayout::page_aligned(usize::MAX), None);
    let layout = DmaLayout { size: 12, align: 4096 };
    assert_eq!(layout.words(), (12, 4096));
    assert_eq!(DmaLayout::from_words((12, 4096)), layout);
}

#[test]
fn arena_keeps_bytes_apart() {
    let mut arena = Arena::new(0x1001, 0x10_0000);
    let layout = DmaLayout::page_aligned(8).unwrap();
    let a = arena.allocate(layout).unwrap();
    assert_eq!(a, 0x2000);
    let b = arena.allocate(layout).unwrap();
    assert_eq!(b, 0x3000);
    assert_eq!(arena.load(a, 8), vec![0u8; 8]);
    arena.store(a, &[1, 2, 3]);
    arena.store(b, &[9; 8]);
    assert_eq!(arena.load(a, 8), vec![1, 2, 3, 0, 0, 0, 0, 0]);
    assert_eq!(arena.load(a, 2), vec![1, 2]);
    assert_eq!(arena.load(b, 8), vec![9; 8]);
    assert_eq!(arena.translate(a), Some(a));
    arena.deallocate(a, layout);
    assert_eq!(arena.translate(a), None);
    assert_eq!(arena.load(b, 8), vec![9; 8]);
    assert_eq!(Arena::new(usize::MAX, usize::MAX).allocate(layout), None);
}

#[test]
fn registry_assigns_the_lowest_free_identifier() {
    let mut registry = QueuePairRegistry::new(4);
    assert_eq!(registry.capacity(), 4);
    assert_eq!(registry.lowest_free_id(), Some(IoQueuePairId(0)));
    for expected in 0..4 {
        let handle = QueuePairHandle { queue: 10 + expected, namespace: 0 };
        assert_eq!(registry.register(handle), Some(IoQueuePairId(expected)));
    }
    assert!(registry.is_full());
    assert_eq!(registry.len(), 4);
    assert_eq!(registry.lowest_free_id(), None);
    assert_eq!(registry.register(QueuePairHandle { queue: 99, namespace: 0 }), None);
    assert_eq!(registry.len(), 4);
    assert_eq!(registry.get(&IoQueuePairId(2)), Some(QueuePairHandle { queue: 12, namespace: 0 }));
    assert_eq!(registry.unregister(IoQueuePairId(2)), Some(QueuePairHandle { queue: 12, namespace: 0 }));
    assert_eq!(registry.unregister(IoQueuePairId(0)), Some(QueuePairHandle { queue: 10, namespace: 0 }));
    assert_eq!(registry.get(&IoQueuePairId(2)), None);
    assert!(!registry.is_full());
    assert_eq!(registry.register(QueuePairHandle { queue: 20, namespace: 1 }), Some(IoQueuePairId(0)));
    assert_eq!(registry.register(QueuePairHandle { queue: 21, namespace: 1 }), Some(IoQueuePairId(2)));
    assert_eq!(registry.get(&IoQueuePairId(2)), Some(QueuePairHandle { queue: 21, namespace: 1 }));
    assert!(registry.is_full());
}

#[test]
fn registry_rejects_unknown_identifiers() {
    let mut registry = QueuePairRegistry::new(2);
    assert_eq!(registry.unregister(IoQueuePairId(0)), None);
    assert_eq!(registry.register(QueuePairHandle { queue: 1, namespace: 0 }), Some(IoQueuePairId(0)));
    assert_eq!(registry.unregister(IoQueuePairId(1)), None);
    assert_eq!(registry.unregister(IoQueuePairId(7)), None);
    assert_eq!(registry.len(), 1);
    assert_eq!(registry.get(&IoQueuePairId(0)), Some(QueuePairHandle { queue: 1, namespace: 0 }));
    let empty = QueuePairRegistry::new(0);
    assert!(empty.is_full());
    assert_eq!(empty.lowest_free_id(), None);
}

#[test]
fn identifiers_convert_to_and_from_numbers() {
    assert_eq!(IoQueuePairId::from(3), IoQueuePairId(3));
    let number: usize = IoQueuePairId(5).into();
    assert_eq!(number, 5);
}

#[test]
fn allocation_table_keeps_one_record_per_address() {
    let mut table = AllocationTable::new();
    let small = DmaLayout { size: 16, align: 4096 };
    let large = DmaLayout { size: 1 << 20, align: 4096 };
    assert!(table.record(0x1000, small));
    assert!(table.record(0x2000, large));
    assert!(!table.record(0x1000, large));
    assert_eq!(table.len(), 2);
    assert!(table.contains(0x1000));
    assert!(!table.contains(0x3000));
    assert_eq!(table.remove(0x3000), None);
    assert_eq!(table.remove(0x1000), Some(small));
    assert_eq!(table.remove(0x1000), None);
    assert!(table.record(0x1000, large));
    assert_eq!(table.remove(0x1000), Some(large));
    assert_eq!(table.remove(0x2000), Some(large));
    assert_eq!(table.len(), 0);
}
