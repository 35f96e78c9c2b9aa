//! The errors that the storage system calls report.

use vstd::prelude::*;

verus! {

/// Why a storage system call failed.
#[derive(Debug, PartialEq, Eq, Structural, Clone, Copy)]
pub enum SysNvmeError {
    ZeroPointerParameter,
    DeviceDoesNotExist,
    CouldNotIdentifyNamespaces,
    NamespaceDoesNotExist,
    MaxNumberOfQueuesReached,
    CouldNotCreateIoQueuePair,
    CouldNotDeleteIoQueuePair,
    CouldNotFindIoQueuePair,
    BufferTooBig,
    CouldNotAllocateMemory,
    CouldNotReadFromIoQueuePair,
    CouldNotWriteToIoQueuePair,
}

impl SysNvmeError {
    /// The number that stands for the error at the system call boundary.
    pub open spec fn spec_code(self) -> usize {
        match self {
            SysNvmeError::ZeroPointerParameter => 1,
            SysNvmeError::DeviceDoesNotExist => 2,
            SysNvmeError::CouldNotIdentifyNamespaces => 3,
            SysNvmeError::NamespaceDoesNotExist => 4,
            SysNvmeError::MaxNumberOfQueuesReached => 5,
            SysNvmeError::CouldNotCreateIoQueuePair => 6,
            SysNvmeError::CouldNotDeleteIoQueuePair => 7,
            SysNvmeError::CouldNotFindIoQueuePair => 8,
            SysNvmeError::BufferTooBig => 9,
            SysNvmeError::CouldNotAllocateMemory => 10,
            SysNvmeError::CouldNotReadFromIoQueuePair => 11,
            SysNvmeError::CouldNotWriteToIoQueuePair => 12,
        }
    }

    /// The error that `code` stands for, if it stands for one.
    pub open spec fn spec_from_code(code: usize) -> Option<SysNvmeError> {
        if code == 1 {
            Some(SysNvmeError::ZeroPointerParameter)
        } else if code == 2 {
            Some(SysNvmeError::DeviceDoesNotExist)
        } else if code == 3 {
            Some(SysNvmeError::CouldNotIdentifyNamespaces)
        } else if code == 4 {
            Some(SysNvmeError::NamespaceDoesNotExist)
        } else if code == 5 {
            Some(SysNvmeError::MaxNumberOfQueuesReached)
        } else if code == 6 {
            Some(SysNvmeError::CouldNotCreateIoQueuePair)
        } else if code == 7 {
            Some(SysNvmeError::CouldNotDeleteIoQueuePair)
        } else if code == 8 {
            Some(SysNvmeError::CouldNotFindIoQueuePair)
        } else if code == 9 {
            Some(SysNvmeError::BufferTooBig)
        } else if code == 10 {
            Some(SysNvmeError::CouldNotAllocateMemory)
        } else if code == 11 {
            Some(SysNvmeError::CouldNotReadFromIoQueuePair)
        } else if code == 12 {
            Some(SysNvmeError::CouldNotWriteToIoQueuePair)
        } else {
            None
        }
    }

    /// The number that stands for the error at the system call boundary.
    pub fn code(self) -> (code: usize)
        ensures
            code == self.spec_code(),
            1 <= code <= 12,
            Self::spec_from_code(code) == Some(self),
    {
        match self {
            SysNvmeError::ZeroPointerParameter => 1,
            SysNvmeError::DeviceDoesNotExist => 2,
            SysNvmeError::CouldNotIdentifyNamespaces => 3,
            SysNvmeError::NamespaceDoesNotExist => 4,
            SysNvmeError::MaxNumberOfQueuesReached => 5,
            SysNvmeError::CouldNotCreateIoQueuePair => 6,
            SysNvmeError::CouldNotDeleteIoQueuePair => 7,
            SysNvmeError::CouldNotFindIoQueuePair => 8,
            SysNvmeError::BufferTooBig => 9,
            SysNvmeError::CouldNotAllocateMemory => 10,
            SysNvmeError::CouldNotReadFromIoQueuePair => 11,
            SysNvmeError::CouldNotWriteToIoQueuePair => 12,
        }
    }
}

/// No two errors share a number, so the caller of a system call can tell
/// from the number what went wrong.
pub proof fn lemma_codes_distinct(a: SysNvmeError, b: SysNvmeError)
    requires
        a.spec_code() == b.spec_code(),
    ensures
        a == b,
{
}

} // verus!
