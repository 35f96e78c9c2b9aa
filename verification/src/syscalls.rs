//! The storage system calls, without their pointers.
//!
//! A system call gets raw pointers and answers with a number: zero, or the
//! number of what went wrong. Here a pointer that may be null is an
//! `Option`, the driver of a machine that may have no device is one too, and
//! a buffer is a slice. What remains is what every call decides: a null
//! pointer is refused first, a missing device second, and the answer of the
//! driver becomes the number.

use vstd::prelude::*;
use crate::controller::Controller;
use crate::driver::{counted, created, deleted, read_done, sized, write_done, NvmeDriver};
use crate::error::SysNvmeError;
use crate::memory::DeviceMemory;
use crate::registry::IoQueuePairId;

verus! {

/// The number that a system call answers with.
pub open spec fn spec_status<T>(outcome: Result<T, SysNvmeError>) -> usize {
    match outcome {
        Ok(_) => 0,
        Err(error) => error.spec_code(),
    }
}

/// The number that a system call answers with: zero for success, the number
/// of the error otherwise.
pub fn status<T>(outcome: &Result<T, SysNvmeError>) -> (status: usize)
    ensures
        status == spec_status(*outcome),
        status == 0 <==> outcome is Ok,
        outcome_of(status, outcome->Ok_0) == *outcome,
{
    match outcome {
        Ok(_) => 0,
        Err(error) => error.code(),
    }
}

/// Whether `status` is a number that a system call answers with.
pub open spec fn is_status(status: usize) -> bool {
    status == 0 || SysNvmeError::spec_from_code(status) is Some
}

/// What the driver answered, from the number that the system call answered
/// with and the value that it stored.
pub open spec fn outcome_of<T>(status: usize, value: T) -> Result<T, SysNvmeError> {
    if status == 0 {
        Ok(value)
    } else {
        Err(SysNvmeError::spec_from_code(status).unwrap())
    }
}

/// Stores the number of namespaces of the device in `result`.
///
/// Answers with the number of `ZeroPointerParameter` if there is no place
/// for the result, and with that of `DeviceDoesNotExist` if there is no
/// device. What is stored in `result` changes on success only.
pub fn sys_nvme_get_number_of_namespaces<C: Controller, M: DeviceMemory>(
    driver: Option<&mut NvmeDriver<C, M>>,
    result: Option<&mut usize>,
) -> (status: usize)
    requires
        driver matches Some(d) ==> d.wf(),
    ensures
        is_status(status),
        match (result, driver) {
            (None, Some(d)) => status == SysNvmeError::ZeroPointerParameter.spec_code() && *final(d)
                == *d,
            (None, None) => status == SysNvmeError::ZeroPointerParameter.spec_code(),
            (Some(r), None) => status == SysNvmeError::DeviceDoesNotExist.spec_code() && *final(r)
                == *r,
            (Some(r), Some(d)) => {
                &&& counted(*d, *final(d), outcome_of(status, *final(r)))
                &&& status != 0 ==> *final(r) == *r
            },
        },
{
    let result = match result {
        Some(result) => result,
        None => { return SysNvmeError::ZeroPointerParameter.code(); },
    };
    let driver = match driver {
        Some(driver) => driver,
        None => { return SysNvmeError::DeviceDoesNotExist.code(); },
    };
    match driver.get_number_of_namespaces() {
        Ok(number_of_namespaces) => {
            *result = number_of_namespaces;
            0
        },
        Err(error) => error.code(),
    }
}

/// Stores the most bytes that one transfer moves in `result`.
///
/// Answers with the number of `ZeroPointerParameter` if there is no place
/// for the result, and with that of `DeviceDoesNotExist` if there is no
/// device. Otherwise the call succeeds.
pub fn sys_nvme_get_max_buffer_size<C: Controller, M: DeviceMemory>(
    driver: Option<&mut NvmeDriver<C, M>>,
    result: Option<&mut usize>,
) -> (status: usize)
    requires
        driver matches Some(d) ==> d.wf(),
    ensures
        driver matches Some(d) ==> *final(d) == *d,
        match (result, driver) {
            (None, _) => status == SysNvmeError::ZeroPointerParameter.spec_code(),
            (Some(r), None) => status == SysNvmeError::DeviceDoesNotExist.spec_code() && *final(r)
                == *r,
            (Some(r), Some(d)) => status == 0 && *final(r) == d.controller().data().max_transfer_size,
        },
{
    let result = match result {
        Some(result) => result,
        None => { return SysNvmeError::ZeroPointerParameter.code(); },
    };
    let driver = match driver {
        Some(driver) => driver,
        None => { return SysNvmeError::DeviceDoesNotExist.code(); },
    };
    *result = driver.get_max_buffer_size();
    0
}

/// Stores the most entries that a queue has in `result`.
///
/// Answers with the number of `ZeroPointerParameter` if there is no place
/// for the result, and with that of `DeviceDoesNotExist` if there is no
/// device. Otherwise the call succeeds.
pub fn sys_nvme_get_max_number_of_queue_entries<C: Controller, M: DeviceMemory>(
    driver: Option<&mut NvmeDriver<C, M>>,
    result: Option<&mut u16>,
) -> (status: usize)
    requires
        driver matches Some(d) ==> d.wf(),
    ensures
        driver matches Some(d) ==> *final(d) == *d,
        match (result, driver) {
            (None, _) => status == SysNvmeError::ZeroPointerParameter.spec_code(),
            (Some(r), None) => status == SysNvmeError::DeviceDoesNotExist.spec_code() && *final(r)
                == *r,
            (Some(r), Some(d)) => status == 0 && *final(r) == d.controller().data().max_queue_entries,
        },
{
    let result = match result {
        Some(result) => result,
        None => { return SysNvmeError::ZeroPointerParameter.code(); },
    };
    let driver = match driver {
        Some(driver) => driver,
        None => { return SysNvmeError::DeviceDoesNotExist.code(); },
    };
    *result = driver.get_max_number_of_queue_entries();
    0
}

/// Stores the size in bytes of the namespace at `namespace_index` in
/// `result`.
///
/// Answers with the number of `ZeroPointerParameter` if there is no place
/// for the result, and with that of `DeviceDoesNotExist` if there is no
/// device. What is stored in `result` changes on success only.
pub fn sys_nvme_get_size_of_namespace<C: Controller, M: DeviceMemory>(
    driver: Option<&mut NvmeDriver<C, M>>,
    namespace_index: usize,
    result: Option<&mut u64>,
) -> (status: usize)
    requires
        driver matches Some(d) ==> d.wf(),
    ensures
        is_status(status),
        match (result, driver) {
            (None, Some(d)) => status == SysNvmeError::ZeroPointerParameter.spec_code() && *final(d)
                == *d,
            (None, None) => status == SysNvmeError::ZeroPointerParameter.spec_code(),
            (Some(r), None) => status == SysNvmeError::DeviceDoesNotExist.spec_code() && *final(r)
                == *r,
            (Some(r), Some(d)) => {
                &&& sized(*d, *final(d), namespace_index, outcome_of(status, *final(r)))
                &&& status != 0 ==> *final(r) == *r
            },
        },
{
    let result = match result {
        Some(result) => result,
        None => { return SysNvmeError::ZeroPointerParameter.code(); },
    };
    let driver = match driver {
        Some(driver) => driver,
        None => { return SysNvmeError::DeviceDoesNotExist.code(); },
    };
    match driver.get_size_of_namespace(namespace_index) {
        Ok(size_of_namespace) => {
            *result = size_of_namespace;
            0
        },
        Err(error) => error.code(),
    }
}

/// Creates a queue pair of `number_of_entries` entries for the namespace at
/// `namespace_index` and stores its identifier in
/// `resulting_io_queue_pair_id`.
///
/// Answers with the number of `ZeroPointerParameter` if there is no place
/// for the result, and with that of `DeviceDoesNotExist` if there is no
/// device. What is stored changes on success only.
pub fn sys_nvme_create_io_queue_pair<C: Controller, M: DeviceMemory>(
    driver: Option<&mut NvmeDriver<C, M>>,
    namespace_index: usize,
    number_of_entries: u16,
    resulting_io_queue_pair_id: Option<&mut usize>,
) -> (status: usize)
    requires
        driver matches Some(d) ==> d.wf(),
    ensures
        is_status(status),
        match (resulting_io_queue_pair_id, driver) {
            (None, Some(d)) => status == SysNvmeError::ZeroPointerParameter.spec_code() && *final(d)
                == *d,
            (None, None) => status == SysNvmeError::ZeroPointerParameter.spec_code(),
            (Some(r), None) => status == SysNvmeError::DeviceDoesNotExist.spec_code() && *final(r)
                == *r,
            (Some(r), Some(d)) => {
                &&& created(
                    *d,
                    *final(d),
                    namespace_index,
                    number_of_entries,
                    outcome_of(status, IoQueuePairId(*final(r))),
                )
                &&& status != 0 ==> *final(r) == *r
            },
        },
{
    let resulting_io_queue_pair_id = match resulting_io_queue_pair_id {
        Some(result) => result,
        None => { return SysNvmeError::ZeroPointerParameter.code(); },
    };
    let driver = match driver {
        Some(driver) => driver,
        None => { return SysNvmeError::DeviceDoesNotExist.code(); },
    };
    match driver.create_io_queue_pair(namespace_index, number_of_entries) {
        Ok(io_queue_pair_id) => {
            *resulting_io_queue_pair_id = io_queue_pair_id.0;
            0
        },
        Err(error) => error.code(),
    }
}

/// Deletes the queue pair that `io_queue_pair_id` names.
///
/// Answers with the number of `DeviceDoesNotExist` if there is no device.
pub fn sys_nvme_delete_io_queue_pair<C: Controller, M: DeviceMemory>(
    driver: Option<&mut NvmeDriver<C, M>>,
    io_queue_pair_id: usize,
) -> (status: usize)
    requires
        driver matches Some(d) ==> d.wf(),
    ensures
        is_status(status),
        match driver {
            None => status == SysNvmeError::DeviceDoesNotExist.spec_code(),
            Some(d) => deleted(*d, *final(d), IoQueuePairId(io_queue_pair_id), outcome_of(status, ())),
        },
{
    let driver = match driver {
        Some(driver) => driver,
        None => { return SysNvmeError::DeviceDoesNotExist.code(); },
    };
    match driver.delete_io_queue_pair(IoQueuePairId::from(io_queue_pair_id)) {
        Ok(_) => 0,
        Err(error) => error.code(),
    }
}

/// Reads from the queue pair that `io_queue_pair_id` names into `buffer`,
/// starting at block `logical_block_address`.
///
/// Answers with the number of `DeviceDoesNotExist` if there is no device,
/// and then `buffer` is as it was.
pub fn sys_nvme_read_from_io_queue_pair<C: Controller, M: DeviceMemory>(
    driver: Option<&mut NvmeDriver<C, M>>,
    io_queue_pair_id: usize,
    buffer: &mut [u8],
    logical_block_address: u64,
) -> (status: usize)
    requires
        driver matches Some(d) ==> d.wf(),
    ensures
        is_status(status),
        match driver {
            None => status == SysNvmeError::DeviceDoesNotExist.spec_code() && final(buffer)@ == old(buffer)@,
            Some(d) => read_done(
                *d,
                *final(d),
                IoQueuePairId(io_queue_pair_id),
                old(buffer)@,
                final(buffer)@,
                logical_block_address,
                outcome_of(status, ()),
            ),
        },
{
    let driver = match driver {
        Some(driver) => driver,
        None => { return SysNvmeError::DeviceDoesNotExist.code(); },
    };
    let id = IoQueuePairId::from(io_queue_pair_id);
    match driver.read_from_io_queue_pair(&id, buffer, logical_block_address) {
        Ok(_) => 0,
        Err(error) => error.code(),
    }
}

/// Writes `buffer` to the queue pair that `io_queue_pair_id` names,
/// starting at block `logical_block_address`.
///
/// Answers with the number of `DeviceDoesNotExist` if there is no device.
pub fn sys_nvme_write_to_io_queue_pair<C: Controller, M: DeviceMemory>(
    driver: Option<&mut NvmeDriver<C, M>>,
    io_queue_pair_id: usize,
    buffer: &[u8],
    logical_block_address: u64,
) -> (status: usize)
    requires
        driver matches Some(d) ==> d.wf(),
    ensures
        is_status(status),
        match driver {
            None => status == SysNvmeError::DeviceDoesNotExist.spec_code(),
            Some(d) => write_done(
                *d,
                *final(d),
                IoQueuePairId(io_queue_pair_id),
                buffer@,
                logical_block_address,
                outcome_of(status, ()),
            ),
        },
{
    let driver = match driver {
        Some(driver) => driver,
        None => { return SysNvmeError::DeviceDoesNotExist.code(); },
    };
    let id = IoQueuePairId::from(io_queue_pair_id);
    match driver.write_to_io_queue_pair(&id, buffer, logical_block_address) {
        Ok(_) => 0,
        Err(error) => error.code(),
    }
}

} // verus!
