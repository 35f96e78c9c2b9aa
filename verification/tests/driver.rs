use hermit_kernel::allocator::NvmeAllocator;
use hermit_kernel::arena::Arena;
use hermit_kernel::controller::{Controller, ControllerData, ControllerError, Namespace};
use hermit_kernel::driver::{count_namespaces, select_namespace, staging_layout, NvmeDriver};
use hermit_kernel::error::SysNvmeError;
use hermit_kernel::layout::DmaLayout;
use hermit_kernel::memory::DeviceMemory;
use hermit_kernel::ramdisk::RamDisk;
use hermit_kernel::registry::IoQueuePairId;

fn disk() -> RamDisk<Arena> {
    let allocator = NvmeAllocator::new(Arena::new(0x4000_0000, 0x4001_0000));
    let mut disk =
        RamDisk::new(ControllerData { max_transfer_size: 8192, max_queue_entries: 64 }, allocator);
    assert_eq!(disk.add_namespace(16, 512), Some(0));
    assert_eq!(disk.add_namespace(4, 4096), Some(1));
    disk
}

fn driver() -> NvmeDriver<RamDisk<Arena>, Arena> {
    NvmeDriver::init(Some((0xfeb0_0000, 0x4000)), Ok(disk()), Arena::new(0x10_0000, 0x20_0000), Some(11)).unwrap()
}

#[test]
fn init_needs_controller_and_interrupt_line() {
    let driver = driver();
    assert_eq!(driver.get_interrupt_number(), 11);
    assert_eq!(driver.get_name(), "nvme");
    let no_irq = NvmeDriver::init(Some((0xfeb0_0000, 0x4000)), Ok(disk()), Arena::new(0x10_0000, 0x20_0000), None);
    assert!(no_irq.is_err());
    let rejected: Result<NvmeDriver<RamDisk<Arena>, Arena>, ()> =
        NvmeDriver::init(Some((0xfeb0_0000, 0x4000)), Err(ControllerError {}), Arena::new(0x10_0000, 0x20_0000), Some(11));
    assert!(rejected.is_err());
    let unmapped = NvmeDriver::init(None, Ok(disk()), Arena::new(0x10_0000, 0x20_0000), Some(11));
    assert!(unmapped.is_err());
}

#[test]
fn namespaces_are_discovered() {
    let mut driver = driver();
    assert_eq!(driver.get_number_of_namespaces(), Ok(2));
    assert_eq!(driver.get_size_of_namespace(0), Ok(8192));
    assert_eq!(driver.get_size_of_namespace(1), Ok(16384));
    assert_eq!(driver.get_size_of_namespace(2), Err(SysNvmeError::NamespaceDoesNotExist));
    assert_eq!(driver.get_size_of_namespace(usize::MAX), Err(SysNvmeError::NamespaceDoesNotExist));
    assert_eq!(driver.get_max_buffer_size(), 8192);
    assert_eq!(driver.get_max_number_of_queue_entries(), 64);
}

#[test]
fn identifiers_are_reused_lowest_first() {
    let mut driver = driver();
    let a = driver.create_io_queue_pair(0, 8).unwrap();
    assert_eq!(a, IoQueuePairId(0));
    let b = driver.create_io_queue_pair(0, 8).unwrap();
    assert_eq!(b, IoQueuePairId(1));
    assert_eq!(driver.create_io_queue_pair(0, 8), Err(SysNvmeError::MaxNumberOfQueuesReached));
    assert_eq!(driver.delete_io_queue_pair(a), Ok(()));
    let d = driver.create_io_queue_pair(0, 8).unwrap();
    assert_eq!(d, IoQueuePairId(0));
    assert_eq!(driver.delete_io_queue_pair(b), Ok(()));
    assert_eq!(driver.create_io_queue_pair(1, 8), Ok(IoQueuePairId(1)));
}

#[test]
fn a_full_registry_stays_as_it_is() {
    let mut driver = driver();
    let a = driver.create_io_queue_pair(0, 8).unwrap();
    let b = driver.create_io_queue_pair(1, 8).unwrap();
    assert_eq!(driver.create_io_queue_pair(1, 8), Err(SysNvmeError::MaxNumberOfQueuesReached));
    let data = [0xabu8; 512];
    assert_eq!(driver.write_to_io_queue_pair(&a, &data, 0), Ok(()));
    assert_eq!(driver.write_to_io_queue_pair(&b, &data, 0), Ok(()));
    assert_eq!(
        driver.write_to_io_queue_pair(&IoQueuePairId(2), &data, 0),
        Err(SysNvmeError::CouldNotFindIoQueuePair)
    );
}

#[test]
fn creation_fails_with_its_own_errors() {
    let mut driver = driver();
    assert_eq!(driver.create_io_queue_pair(2, 8), Err(SysNvmeError::NamespaceDoesNotExist));
    assert_eq!(driver.create_io_queue_pair(0, 0), Err(SysNvmeError::CouldNotCreateIoQueuePair));
    assert_eq!(driver.create_io_queue_pair(0, 65), Err(SysNvmeError::CouldNotCreateIoQueuePair));
    assert_eq!(driver.create_io_queue_pair(0, 64), Ok(IoQueuePairId(0)));
}

#[test]
fn deleting_an_unknown_identifier_changes_nothing() {
    let mut driver = driver();
    assert_eq!(driver.delete_io_queue_pair(IoQueuePairId(0)), Err(SysNvmeError::CouldNotFindIoQueuePair));
    let a = driver.create_io_queue_pair(0, 8).unwrap();
    assert_eq!(driver.delete_io_queue_pair(IoQueuePairId(1)), Err(SysNvmeError::CouldNotFindIoQueuePair));
    assert_eq!(driver.delete_io_queue_pair(IoQueuePairId(9)), Err(SysNvmeError::CouldNotFindIoQueuePair));
    assert_eq!(driver.write_to_io_queue_pair(&a, &[1u8; 16], 0), Ok(()));
    assert_eq!(driver.create_io_queue_pair(0, 8), Ok(IoQueuePairId(1)));
    assert_eq!(driver.delete_io_queue_pair(a), Ok(()));
    assert_eq!(driver.delete_io_queue_pair(a), Err(SysNvmeError::CouldNotFindIoQueuePair));
}

#[test]
fn write_then_read_round_trip() {
    let mut driver = driver();
    let id = driver.create_io_queue_pair(0, 8).unwrap();
    let data: Vec<u8> = (0..1024u32).map(|i| (i % 251) as u8).collect();
    assert_eq!(driver.write_to_io_queue_pair(&id, &data, 3), Ok(()));
    let mut back = vec![0u8; 1024];
    assert_eq!(driver.read_from_io_queue_pair(&id, &mut back, 3), Ok(()));
    assert_eq!(back, data);
    let mut before = vec![0xffu8; 512];
    assert_eq!(driver.read_from_io_queue_pair(&id, &mut before, 2), Ok(()));
    assert_eq!(before, vec![0u8; 512]);
    let mut across = vec![0u8; 1024];
    assert_eq!(driver.read_from_io_queue_pair(&id, &mut across, 4), Ok(()));
    assert_eq!(&across[..512], &data[512..]);
    assert_eq!(&across[512..], &[0u8; 512][..]);
}

#[test]
fn round_trip_of_the_largest_transfer() {
    let mut driver = driver();
    let id = driver.create_io_queue_pair(1, 8).unwrap();
    let data: Vec<u8> = (0..8192u32).map(|i| (i % 7) as u8 + 1).collect();
    assert_eq!(driver.write_to_io_queue_pair(&id, &data, 1), Ok(()));
    let mut back = vec![0u8; 8192];
    assert_eq!(driver.read_from_io_queue_pair(&id, &mut back, 1), Ok(()));
    assert_eq!(back, data);
    let empty: [u8; 0] = [];
    assert_eq!(driver.write_to_io_queue_pair(&id, &empty, 0), Ok(()));
}

#[test]
fn namespaces_do_not_share_bytes() {
    let mut driver = driver();
    let first = driver.create_io_queue_pair(0, 8).unwrap();
    let second = driver.create_io_queue_pair(1, 8).unwrap();
    assert_eq!(driver.write_to_io_queue_pair(&first, &[5u8; 512], 0), Ok(()));
    let mut back = [1u8; 512];
    assert_eq!(driver.read_from_io_queue_pair(&second, &mut back, 0), Ok(()));
    assert_eq!(back, [0u8; 512]);
}

#[test]
fn a_buffer_that_is_too_big_is_rejected() {
    let mut driver = driver();
    let id = driver.create_io_queue_pair(1, 8).unwrap();
    let data = vec![3u8; 8193];
    assert_eq!(driver.write_to_io_queue_pair(&id, &data, 0), Err(SysNvmeError::BufferTooBig));
    let mut back = vec![7u8; 8193];
    assert_eq!(driver.read_from_io_queue_pair(&id, &mut back, 0), Err(SysNvmeError::BufferTooBig));
    assert_eq!(back, vec![7u8; 8193]);
    assert_eq!(
        driver.write_to_io_queue_pair(&IoQueuePairId(1), &data, 0),
        Err(SysNvmeError::BufferTooBig)
    );
    let mut zeros = vec![1u8; 8192];
    assert_eq!(driver.read_from_io_queue_pair(&id, &mut zeros, 0), Ok(()));
    assert_eq!(zeros, vec![0u8; 8192]);
}

#[test]
fn a_rejected_buffer_takes_no_staging_memory() {
    let mut driver = driver();
    let id = driver.create_io_queue_pair(1, 8).unwrap();
    assert_eq!(driver.get_memory().next_address(), 0x10_0000);
    assert_eq!(driver.write_to_io_queue_pair(&id, &vec![3u8; 8193], 0), Err(SysNvmeError::BufferTooBig));
    let mut back = vec![7u8; 9000];
    assert_eq!(driver.read_from_io_queue_pair(&id, &mut back, 0), Err(SysNvmeError::BufferTooBig));
    assert_eq!(driver.get_memory().next_address(), 0x10_0000);
    assert_eq!(driver.write_to_io_queue_pair(&id, &[3u8; 4097], 0), Ok(()));
    assert_eq!(driver.get_memory().next_address(), 0x10_2000);
    assert_eq!(driver.write_to_io_queue_pair(&IoQueuePairId(1), &[3u8; 1], 0), Err(SysNvmeError::CouldNotFindIoQueuePair));
    assert_eq!(driver.get_memory().next_address(), 0x10_3000);
    let empty: [u8; 0] = [];
    assert_eq!(driver.write_to_io_queue_pair(&id, &empty, 0), Ok(()));
    assert_eq!(driver.get_memory().next_address(), 0x10_4000);
}

#[test]
fn transfers_beyond_the_namespace_fail() {
    let mut driver = driver();
    let id = driver.create_io_queue_pair(0, 8).unwrap();
    let data = [1u8; 1024];
    assert_eq!(driver.write_to_io_queue_pair(&id, &data, 15), Err(SysNvmeError::CouldNotWriteToIoQueuePair));
    assert_eq!(driver.write_to_io_queue_pair(&id, &data, u64::MAX), Err(SysNvmeError::CouldNotWriteToIoQueuePair));
    let mut back = [9u8; 1024];
    assert_eq!(driver.read_from_io_queue_pair(&id, &mut back, 15), Err(SysNvmeError::CouldNotReadFromIoQueuePair));
    assert_eq!(back, [9u8; 1024]);
    let mut last = [9u8; 512];
    assert_eq!(driver.read_from_io_queue_pair(&id, &mut last, 15), Ok(()));
    assert_eq!(last, [0u8; 512]);
}

#[test]
fn staging_needs_memory_and_leaks_none() {
    let mut small = NvmeDriver::init(Some((0xfeb0_0000, 0x4000)), Ok(disk()), Arena::new(0x1000, 0x1800), Some(5)).unwrap();
    let id = small.create_io_queue_pair(0, 8).unwrap();
    assert_eq!(small.write_to_io_queue_pair(&id, &[1u8; 512], 0), Err(SysNvmeError::CouldNotAllocateMemory));
    let mut back = [4u8; 512];
    assert_eq!(small.read_from_io_queue_pair(&id, &mut back, 0), Err(SysNvmeError::CouldNotAllocateMemory));
    assert_eq!(back, [4u8; 512]);
    let mut none = NvmeDriver::init(Some((0xfeb0_0000, 0x4000)), Ok(disk()), Arena::new(0x1000, 0x1000), Some(5)).unwrap();
    assert_eq!(
        none.write_to_io_queue_pair(&IoQueuePairId(0), &[1u8; 512], 0),
        Err(SysNvmeError::CouldNotAllocateMemory)
    );
}

#[test]
fn staging_layouts() {
    assert_eq!(staging_layout(512, 8192), Ok(DmaLayout { size: 512, align: 4096 }));
    assert_eq!(staging_layout(8192, 8192), Ok(DmaLayout { size: 8192, align: 4096 }));
    assert_eq!(staging_layout(8193, 8192), Err(SysNvmeError::BufferTooBig));
    assert_eq!(staging_layout(usize::MAX - 1, usize::MAX), Err(SysNvmeError::BufferTooBig));
    assert_eq!(staging_layout(0, 0), Ok(DmaLayout { size: 0, align: 4096 }));
}

#[test]
fn namespaces_are_selected_by_index() {
    let first = Namespace { index: 0, block_count: 16, block_size: 512 };
    let second = Namespace { index: 1, block_count: 4, block_size: 4096 };
    let list = Ok(vec![first, second]);
    assert_eq!(select_namespace(&list, 0), Ok(first));
    assert_eq!(select_namespace(&list, 1), Ok(second));
    assert_eq!(select_namespace(&list, 2), Err(SysNvmeError::NamespaceDoesNotExist));
    assert_eq!(select_namespace(&Ok(vec![]), 0), Err(SysNvmeError::NamespaceDoesNotExist));
    assert_eq!(
        select_namespace(&Err(ControllerError {}), 0),
        Err(SysNvmeError::CouldNotIdentifyNamespaces)
    );
    assert_eq!(second.byte_size(), 16384);
    assert_eq!(count_namespaces(&list), Ok(2));
    assert_eq!(count_namespaces(&Ok(vec![])), Ok(0));
    assert_eq!(count_namespaces(&Err(ControllerError {})), Err(SysNvmeError::CouldNotIdentifyNamespaces));
}

#[test]
fn ramdisk_answers_as_a_controller() {
    let mut disk = disk();
    assert_eq!(disk.add_namespace(u64::MAX, 2), None);
    assert_eq!(disk.controller_data().max_transfer_size, 8192);
    let namespaces = disk.identify_namespaces(0).unwrap();
    assert_eq!(namespaces.len(), 2);
    assert_eq!(namespaces[1], Namespace { index: 1, block_count: 4, block_size: 4096 });
    assert_eq!(disk.identify_namespaces(1).unwrap(), vec![namespaces[1]]);
    assert!(disk.identify_namespaces(3).is_err());
    let a = disk.create_io_queue_pair(namespaces[0], 8).unwrap();
    let b = disk.create_io_queue_pair(namespaces[0], 8).unwrap();
    assert!(a != b);
    assert_eq!(a.namespace, 0);
    let mut arena = Arena::new(0x1000, 0x10_0000);
    let address = arena.allocate(DmaLayout::page_aligned(512).unwrap()).unwrap();
    arena.store(address, &[6u8; 512]);
    assert_eq!(disk.write(a, &arena, address, 512, 1), Ok(()));
    arena.store(address, &[0u8; 512]);
    assert_eq!(disk.read(b, &mut arena, address, 512, 1), Ok(()));
    assert_eq!(arena.load(address, 512), vec![6u8; 512]);
    assert_eq!(disk.delete_io_queue_pair(a), Ok(()));
    assert_eq!(disk.delete_io_queue_pair(b), Ok(()));
}

#[test]
fn queue_memory_is_given_back() {
    let mut driver = driver();
    assert_eq!(driver.get_controller().queue_memory_in_use(), 0);
    let a = driver.create_io_queue_pair(0, 8).unwrap();
    let b = driver.create_io_queue_pair(1, 64).unwrap();
    assert_eq!(driver.get_controller().queue_memory_in_use(), 2);
    assert_eq!(driver.create_io_queue_pair(1, 8), Err(SysNvmeError::MaxNumberOfQueuesReached));
    assert_eq!(driver.get_controller().queue_memory_in_use(), 2);
    assert_eq!(driver.delete_io_queue_pair(a), Ok(()));
    assert_eq!(driver.get_controller().queue_memory_in_use(), 1);
    assert_eq!(driver.delete_io_queue_pair(b), Ok(()));
    assert_eq!(driver.get_controller().queue_memory_in_use(), 0);
}

#[test]
fn queues_need_memory() {
    let allocator = NvmeAllocator::new(Arena::new(0x1000, 0x3000));
    let mut disk =
        RamDisk::new(ControllerData { max_transfer_size: 4096, max_queue_entries: 1024 }, allocator);
    assert_eq!(disk.add_namespace(8, 512), Some(0));
    let mut driver = NvmeDriver::init(Some((0xfeb0_0000, 0x4000)), Ok(disk), Arena::new(0x10_0000, 0x20_0000), Some(3)).unwrap();
    assert_eq!(driver.create_io_queue_pair(0, 200), Err(SysNvmeError::CouldNotCreateIoQueuePair));
    assert_eq!(driver.create_io_queue_pair(0, 51), Ok(IoQueuePairId(0)));
    assert_eq!(driver.create_io_queue_pair(0, 52), Err(SysNvmeError::CouldNotCreateIoQueuePair));
    assert_eq!(driver.create_io_queue_pair(0, 1), Ok(IoQueuePairId(1)));
    assert_eq!(driver.get_controller().queue_memory_in_use(), 2);
}
