use embedded_io::ErrorKind;
use hermit_kernel::entropy::{
    generate_park_miller_lehmer_random_number, init_entropy, read_entropy, sys_rand, sys_srand, RAND_MAX,
};
use hermit_kernel::error::SysNvmeError;
use hermit_kernel::futex::{check_wait, timeout_in_microseconds};
use hermit_kernel::io::{Errno, Error};
use hermit_kernel::syscalls::status;

#[test]
fn error_numbers() {
    assert_eq!(Error::ENOENT.code(), 2);
    assert_eq!(Error::ENOSYS.code(), 38);
    assert_eq!(Error::EIO.code(), 5);
    assert_eq!(Error::EBADF.code(), 9);
    assert_eq!(Error::EISDIR.code(), 21);
    assert_eq!(Error::EINVAL.code(), 22);
    assert_eq!(Error::ETIME.code(), 62);
    assert_eq!(Error::EAGAIN.code(), 11);
    assert_eq!(Error::EFAULT.code(), 14);
    assert_eq!(Error::ENOBUFS.code(), 105);
    assert_eq!(Error::ENOTCONN.code(), 107);
    assert_eq!(Error::ENOTDIR.code(), 20);
    assert_eq!(Error::EMFILE.code(), 24);
    assert_eq!(Error::EEXIST.code(), 17);
    assert_eq!(Error::EADDRINUSE.code(), 98);
    assert_eq!(Error::EOVERFLOW.code(), 75);
    assert_eq!(Error::ENOTSOCK.code(), 88);
}

#[test]
fn error_numbers_round_trip() {
    let mut known = 0;
    for code in -200..200 {
        if let Some(error) = Error::from_code(code) {
            assert_eq!(error.code(), code);
            known += 1;
        }
    }
    assert_eq!(known, 17);
    assert_eq!(Error::from_code(22), Some(Error::EINVAL));
    assert_eq!(Error::from_code(0), None);
    assert_eq!(Error::from_code(-2), None);
}

#[test]
fn error_kinds() {
    assert_eq!(Errno::Noent.kind(), ErrorKind::NotFound);
    assert_eq!(Errno::Acces.kind(), ErrorKind::PermissionDenied);
    assert_eq!(Errno::Perm.kind(), ErrorKind::PermissionDenied);
    assert_eq!(Errno::Connrefused.kind(), ErrorKind::ConnectionRefused);
    assert_eq!(Errno::Connreset.kind(), ErrorKind::ConnectionReset);
    assert_eq!(Errno::Connaborted.kind(), ErrorKind::ConnectionAborted);
    assert_eq!(Errno::Notconn.kind(), ErrorKind::NotConnected);
    assert_eq!(Errno::Addrinuse.kind(), ErrorKind::AddrInUse);
    assert_eq!(Errno::Addrnotavail.kind(), ErrorKind::AddrNotAvailable);
    assert_eq!(Errno::Pipe.kind(), ErrorKind::BrokenPipe);
    assert_eq!(Errno::Exist.kind(), ErrorKind::AlreadyExists);
    assert_eq!(Errno::Inval.kind(), ErrorKind::InvalidInput);
    assert_eq!(Errno::Timedout.kind(), ErrorKind::TimedOut);
    assert_eq!(Errno::Intr.kind(), ErrorKind::Interrupted);
    assert_eq!(Errno::Opnotsupp.kind(), ErrorKind::Unsupported);
    assert_eq!(Errno::Nomem.kind(), ErrorKind::OutOfMemory);
    assert_eq!(Errno::Io.kind(), ErrorKind::Other);
    assert_eq!(Errno::Badf.kind(), ErrorKind::Other);
    assert_eq!(ErrorKind::from(Errno::Nosys), ErrorKind::Other);
    assert_eq!(ErrorKind::from(Errno::Pipe), ErrorKind::BrokenPipe);
}

#[test]
fn system_call_status() {
    assert_eq!(status(&Ok::<u64, SysNvmeError>(7)), 0);
    assert_eq!(status::<()>(&Err(SysNvmeError::ZeroPointerParameter)), 1);
    assert_eq!(status::<()>(&Err(SysNvmeError::DeviceDoesNotExist)), 2);
    assert_eq!(status::<()>(&Err(SysNvmeError::CouldNotIdentifyNamespaces)), 3);
    assert_eq!(status::<()>(&Err(SysNvmeError::NamespaceDoesNotExist)), 4);
    assert_eq!(status::<()>(&Err(SysNvmeError::MaxNumberOfQueuesReached)), 5);
    assert_eq!(status::<()>(&Err(SysNvmeError::CouldNotCreateIoQueuePair)), 6);
    assert_eq!(status::<()>(&Err(SysNvmeError::CouldNotDeleteIoQueuePair)), 7);
    assert_eq!(status::<()>(&Err(SysNvmeError::CouldNotFindIoQueuePair)), 8);
    assert_eq!(status::<()>(&Err(SysNvmeError::BufferTooBig)), 9);
    assert_eq!(status::<()>(&Err(SysNvmeError::CouldNotAllocateMemory)), 10);
    assert_eq!(status::<()>(&Err(SysNvmeError::CouldNotReadFromIoQueuePair)), 11);
    assert_eq!(status::<()>(&Err(SysNvmeError::CouldNotWriteToIoQueuePair)), 12);
    assert_eq!(SysNvmeError::BufferTooBig.code(), 9);
}

#[test]
fn futex_wait_arguments() {
    assert_eq!(timeout_in_microseconds(None), Ok(None));
    assert_eq!(timeout_in_microseconds(Some(Some(0))), Ok(Some(0)));
    assert_eq!(timeout_in_microseconds(Some(Some(1_500_000))), Ok(Some(1_500_000)));
    assert_eq!(timeout_in_microseconds(Some(Some(-1))), Err(Errno::Inval));
    assert_eq!(timeout_in_microseconds(Some(None)), Err(Errno::Inval));
    assert_eq!(check_wait(true, None, true), Err(Errno::Inval));
    assert_eq!(check_wait(false, None, false), Err(Errno::Inval));
    assert_eq!(check_wait(false, Some(Some(-5)), true), Err(Errno::Inval));
    assert_eq!(check_wait(false, Some(Some(5)), true), Ok(Some(5)));
    assert_eq!(check_wait(false, None, true), Ok(None));
}

#[test]
fn park_miller_lehmer_numbers() {
    let mut seed = 0u32;
    init_entropy(&mut seed, 1);
    assert_eq!(seed, 1);
    assert_eq!(generate_park_miller_lehmer_random_number(&mut seed), 48271);
    assert_eq!(seed, 48271);
    assert_eq!(sys_rand(&mut seed), 182_605_794);
    sys_srand(&mut seed, 0);
    assert_eq!(sys_rand(&mut seed), 0);
    sys_srand(&mut seed, u32::MAX);
    let random = sys_rand(&mut seed);
    assert_eq!(u64::from(random), (u64::from(u32::MAX) * 48271) % RAND_MAX);
    assert!(u64::from(random) < RAND_MAX);
    init_entropy(&mut seed, 0x1_0000_0002);
    assert_eq!(seed, 2);
    assert_eq!(sys_rand(&mut seed), 96542);
}

#[test]
fn entropy_falls_back_to_the_generator() {
    let mut seed = 1u32;
    let mut buf = [0u8; 3];
    assert_eq!(read_entropy(&mut seed, &mut buf, true, -38), 3);
    assert_eq!(buf, [(48271u32 & 0xff) as u8, (182_605_794u32 & 0xff) as u8, (1_291_394_886u32 & 0xff) as u8]);
    assert_eq!(seed, 1_291_394_886);
    let mut untouched = [9u8; 3];
    assert_eq!(read_entropy(&mut seed, &mut untouched, true, 2), 2);
    assert_eq!(read_entropy(&mut seed, &mut untouched, true, 0), 0);
    assert_eq!(read_entropy(&mut seed, &mut untouched, false, -38), -22);
    assert_eq!(read_entropy(&mut seed, &mut untouched, false, 3), -22);
    assert_eq!(untouched, [9u8; 3]);
    assert_eq!(seed, 1_291_394_886);
    let mut none: [u8; 0] = [];
    assert_eq!(read_entropy(&mut seed, &mut none, true, -1), 0);
    assert_eq!(seed, 1_291_394_886);
}
