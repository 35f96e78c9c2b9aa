use hermit_kernel::allocator::NvmeAllocator;
use hermit_kernel::arena::Arena;
use hermit_kernel::controller::ControllerData;
use hermit_kernel::driver::NvmeDriver;
use hermit_kernel::ramdisk::RamDisk;
use hermit_kernel::syscalls::{
    sys_nvme_create_io_queue_pair, sys_nvme_delete_io_queue_pair, sys_nvme_get_max_buffer_size,
    sys_nvme_get_max_number_of_queue_entries, sys_nvme_get_number_of_namespaces,
    sys_nvme_get_size_of_namespace, sys_nvme_read_from_io_queue_pair,
    sys_nvme_write_to_io_queue_pair,
};

type Driver = NvmeDriver<RamDisk<Arena>, Arena>;

fn driver() -> Driver {
    let allocator = NvmeAllocator::new(Arena::new(0x4000_0000, 0x4001_0000));
    let mut disk =
        RamDisk::new(ControllerData { max_transfer_size: 4096, max_queue_entries: 32 }, allocator);
    assert_eq!(disk.add_namespace(8, 512), Some(0));
    NvmeDriver::init(Some((0xfeb0_0000, 0x4000)), Ok(disk), Arena::new(0x10_0000, 0x20_0000), Some(9)).unwrap()
}

#[test]
fn calls_without_a_place_for_the_result() {
    let mut driver = driver();
    assert_eq!(sys_nvme_get_number_of_namespaces(Some(&mut driver), None), 1);
    assert_eq!(sys_nvme_get_max_buffer_size(Some(&mut driver), None), 1);
    assert_eq!(sys_nvme_get_max_number_of_queue_entries(Some(&mut driver), None), 1);
    assert_eq!(sys_nvme_get_size_of_namespace(Some(&mut driver), 0, None), 1);
    assert_eq!(sys_nvme_create_io_queue_pair(Some(&mut driver), 0, 8, None), 1);
    assert_eq!(sys_nvme_get_number_of_namespaces::<RamDisk<Arena>, Arena>(None, None), 1);
    let mut id = 55;
    assert_eq!(sys_nvme_create_io_queue_pair(Some(&mut driver), 0, 8, Some(&mut id)), 0);
    assert_eq!(id, 0);
}

#[test]
fn calls_without_a_device() {
    let mut count = 7usize;
    let mut entries = 7u16;
    let mut size = 7u64;
    let mut buffer = [7u8; 16];
    assert_eq!(sys_nvme_get_number_of_namespaces::<RamDisk<Arena>, Arena>(None, Some(&mut count)), 2);
    assert_eq!(sys_nvme_get_max_buffer_size::<RamDisk<Arena>, Arena>(None, Some(&mut count)), 2);
    assert_eq!(
        sys_nvme_get_max_number_of_queue_entries::<RamDisk<Arena>, Arena>(None, Some(&mut entries)),
        2
    );
    assert_eq!(sys_nvme_get_size_of_namespace::<RamDisk<Arena>, Arena>(None, 0, Some(&mut size)), 2);
    assert_eq!(sys_nvme_create_io_queue_pair::<RamDisk<Arena>, Arena>(None, 0, 8, Some(&mut count)), 2);
    assert_eq!(sys_nvme_delete_io_queue_pair::<RamDisk<Arena>, Arena>(None, 0), 2);
    assert_eq!(
        sys_nvme_read_from_io_queue_pair::<RamDisk<Arena>, Arena>(None, 0, &mut buffer, 0),
        2
    );
    assert_eq!(sys_nvme_write_to_io_queue_pair::<RamDisk<Arena>, Arena>(None, 0, &buffer, 0), 2);
    assert_eq!((count, entries, size, buffer), (7, 7, 7, [7u8; 16]));
}

#[test]
fn calls_that_reach_the_driver() {
    let mut driver = driver();
    let mut count = 0usize;
    assert_eq!(sys_nvme_get_number_of_namespaces(Some(&mut driver), Some(&mut count)), 0);
    assert_eq!(count, 1);
    let mut most = 0usize;
    assert_eq!(sys_nvme_get_max_buffer_size(Some(&mut driver), Some(&mut most)), 0);
    assert_eq!(most, 4096);
    let mut entries = 0u16;
    assert_eq!(sys_nvme_get_max_number_of_queue_entries(Some(&mut driver), Some(&mut entries)), 0);
    assert_eq!(entries, 32);
    let mut size = 1u64;
    assert_eq!(sys_nvme_get_size_of_namespace(Some(&mut driver), 0, Some(&mut size)), 0);
    assert_eq!(size, 4096);
    assert_eq!(sys_nvme_get_size_of_namespace(Some(&mut driver), 1, Some(&mut size)), 4);
    assert_eq!(size, 4096);
    let mut id = 99usize;
    assert_eq!(sys_nvme_create_io_queue_pair(Some(&mut driver), 3, 8, Some(&mut id)), 4);
    assert_eq!(sys_nvme_create_io_queue_pair(Some(&mut driver), 0, 33, Some(&mut id)), 6);
    assert_eq!(id, 99);
    assert_eq!(sys_nvme_create_io_queue_pair(Some(&mut driver), 0, 8, Some(&mut id)), 0);
    assert_eq!(id, 0);
    assert_eq!(sys_nvme_create_io_queue_pair(Some(&mut driver), 0, 8, Some(&mut id)), 0);
    assert_eq!(id, 1);
    assert_eq!(sys_nvme_create_io_queue_pair(Some(&mut driver), 0, 8, Some(&mut id)), 5);
    assert_eq!(id, 1);
    let data = [0x5au8; 512];
    assert_eq!(sys_nvme_write_to_io_queue_pair(Some(&mut driver), 1, &data, 7), 0);
    let mut back = [0u8; 512];
    assert_eq!(sys_nvme_read_from_io_queue_pair(Some(&mut driver), 0, &mut back, 7), 0);
    assert_eq!(back, data);
    assert_eq!(sys_nvme_write_to_io_queue_pair(Some(&mut driver), 1, &data, 8), 12);
    assert_eq!(sys_nvme_read_from_io_queue_pair(Some(&mut driver), 1, &mut back, 8), 11);
    assert_eq!(sys_nvme_write_to_io_queue_pair(Some(&mut driver), 2, &data, 0), 8);
    assert_eq!(sys_nvme_read_from_io_queue_pair(Some(&mut driver), 2, &mut back, 0), 8);
    let big = [0u8; 4097];
    assert_eq!(sys_nvme_write_to_io_queue_pair(Some(&mut driver), 1, &big, 0), 9);
    assert_eq!(sys_nvme_delete_io_queue_pair(Some(&mut driver), 2), 8);
    assert_eq!(sys_nvme_delete_io_queue_pair(Some(&mut driver), 0), 0);
    assert_eq!(sys_nvme_delete_io_queue_pair(Some(&mut driver), 0), 8);
    assert_eq!(sys_nvme_create_io_queue_pair(Some(&mut driver), 0, 8, Some(&mut id)), 0);
    assert_eq!(id, 0);
}

#[test]
fn calls_when_memory_is_exhausted() {
    let allocator = NvmeAllocator::new(Arena::new(0x4000_0000, 0x4001_0000));
    let mut disk =
        RamDisk::new(ControllerData { max_transfer_size: 4096, max_queue_entries: 32 }, allocator);
    assert_eq!(disk.add_namespace(8, 512), Some(0));
    let mut driver: Driver = NvmeDriver::init(Some((0xfeb0_0000, 0x4000)), Ok(disk), Arena::new(0x1000, 0x1000), Some(9)).unwrap();
    let mut id = 0usize;
    assert_eq!(sys_nvme_create_io_queue_pair(Some(&mut driver), 0, 8, Some(&mut id)), 0);
    assert_eq!(sys_nvme_write_to_io_queue_pair(Some(&mut driver), 0, &[1u8; 8], 0), 10);
}
