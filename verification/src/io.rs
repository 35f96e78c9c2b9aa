//! Error numbers and the kinds of input and output errors they stand for.

use vstd::prelude::*;
use embedded_io::ErrorKind;

verus! {

/// `embedded_io::ErrorKind`, the kinds of input and output errors. The
/// verifier reads the variants from the crate.
#[verifier::external_type_specification]
pub struct ExErrorKind(ErrorKind);

/// The error numbers that the file and socket layer reports.
#[allow(clippy::upper_case_acronyms)]
#[derive(PartialEq, Eq, Structural, Clone, Copy, Debug)]
pub enum Error {
    ENOENT,
    ENOSYS,
    EIO,
    EBADF,
    EISDIR,
    EINVAL,
    ETIME,
    EAGAIN,
    EFAULT,
    ENOBUFS,
    ENOTCONN,
    ENOTDIR,
    EMFILE,
    EEXIST,
    EADDRINUSE,
    EOVERFLOW,
    ENOTSOCK,
}

impl Error {
    /// The number of the error.
    pub open spec fn spec_code(self) -> i32 {
        match self {
            Error::ENOENT => 2,
            Error::ENOSYS => 38,
            Error::EIO => 5,
            Error::EBADF => 9,
            Error::EISDIR => 21,
            Error::EINVAL => 22,
            Error::ETIME => 62,
            Error::EAGAIN => 11,
            Error::EFAULT => 14,
            Error::ENOBUFS => 105,
            Error::ENOTCONN => 107,
            Error::ENOTDIR => 20,
            Error::EMFILE => 24,
            Error::EEXIST => 17,
            Error::EADDRINUSE => 98,
            Error::EOVERFLOW => 75,
            Error::ENOTSOCK => 88,
        }
    }

    /// The error that `code` is the number of, if there is one.
    pub open spec fn spec_from_code(code: i32) -> Option<Error> {
        if code == 2 {
            Some(Error::ENOENT)
        } else if code == 38 {
            Some(Error::ENOSYS)
        } else if code == 5 {
            Some(Error::EIO)
        } else if code == 9 {
            Some(Error::EBADF)
        } else if code == 21 {
            Some(Error::EISDIR)
        } else if code == 22 {
            Some(Error::EINVAL)
        } else if code == 62 {
            Some(Error::ETIME)
        } else if code == 11 {
            Some(Error::EAGAIN)
        } else if code == 14 {
            Some(Error::EFAULT)
        } else if code == 105 {
            Some(Error::ENOBUFS)
        } else if code == 107 {
            Some(Error::ENOTCONN)
        } else if code == 20 {
            Some(Error::ENOTDIR)
        } else if code == 24 {
            Some(Error::EMFILE)
        } else if code == 17 {
            Some(Error::EEXIST)
        } else if code == 98 {
            Some(Error::EADDRINUSE)
        } else if code == 75 {
            Some(Error::EOVERFLOW)
        } else if code == 88 {
            Some(Error::ENOTSOCK)
        } else {
            None
        }
    }

    /// The number of the error.
    pub fn code(self) -> (code: i32)
        ensures
            code == self.spec_code(),
            Self::spec_from_code(code) == Some(self),
    {
        match self {
            Error::ENOENT => 2,
            Error::ENOSYS => 38,
            Error::EIO => 5,
            Error::EBADF => 9,
            Error::EISDIR => 21,
            Error::EINVAL => 22,
            Error::ETIME => 62,
            Error::EAGAIN => 11,
            Error::EFAULT => 14,
            Error::ENOBUFS => 105,
            Error::ENOTCONN => 107,
            Error::ENOTDIR => 20,
            Error::EMFILE => 24,
            Error::EEXIST => 17,
            Error::EADDRINUSE => 98,
            Error::EOVERFLOW => 75,
            Error::ENOTSOCK => 88,
        }
    }

    /// The error that `code` is the number of, or `None` when it is the
    /// number of none.
    pub fn from_code(code: i32) -> (error: Option<Error>)
        ensures
            error == Self::spec_from_code(code),
            error matches Some(e) ==> e.spec_code() == code,
    {
        if code == 2 {
            Some(Error::ENOENT)
        } else if code == 38 {
            Some(Error::ENOSYS)
        } else if code == 5 {
            Some(Error::EIO)
        } else if code == 9 {
            Some(Error::EBADF)
        } else if code == 21 {
            Some(Error::EISDIR)
        } else if code == 22 {
            Some(Error::EINVAL)
        } else if code == 62 {
            Some(Error::ETIME)
        } else if code == 11 {
            Some(Error::EAGAIN)
        } else if code == 14 {
            Some(Error::EFAULT)
        } else if code == 105 {
            Some(Error::ENOBUFS)
        } else if code == 107 {
            Some(Error::ENOTCONN)
        } else if code == 20 {
            Some(Error::ENOTDIR)
        } else if code == 24 {
            Some(Error::EMFILE)
        } else if code == 17 {
            Some(Error::EEXIST)
        } else if code == 98 {
            Some(Error::EADDRINUSE)
        } else if code == 75 {
            Some(Error::EOVERFLOW)
        } else if code == 88 {
            Some(Error::ENOTSOCK)
        } else {
            None
        }
    }
}

/// The error numbers of the kernel.
#[derive(PartialEq, Eq, Structural, Clone, Copy, Debug)]
pub enum Errno {
    Perm,
    Noent,
    Intr,
    Io,
    Badf,
    Again,
    Nomem,
    Acces,
    Fault,
    Exist,
    Notdir,
    Isdir,
    Inval,
    Mfile,
    Pipe,
    Nosys,
    Time,
    Overflow,
    Notsock,
    Opnotsupp,
    Addrinuse,
    Addrnotavail,
    Connaborted,
    Connreset,
    Nobufs,
    Notconn,
    Timedout,
    Connrefused,
}

impl Errno {
    /// The kind of input or output error that the error number stands for.
    /// An error number that stands for no kind of its own is of the kind
    /// `Other`.
    pub open spec fn spec_kind(self) -> ErrorKind {
        match self {
            Errno::Noent => ErrorKind::NotFound,
            Errno::Acces | Errno::Perm => ErrorKind::PermissionDenied,
            Errno::Connrefused => ErrorKind::ConnectionRefused,
            Errno::Connreset => ErrorKind::ConnectionReset,
            Errno::Connaborted => ErrorKind::ConnectionAborted,
            Errno::Notconn => ErrorKind::NotConnected,
            Errno::Addrinuse => ErrorKind::AddrInUse,
            Errno::Addrnotavail => ErrorKind::AddrNotAvailable,
            Errno::Pipe => ErrorKind::BrokenPipe,
            Errno::Exist => ErrorKind::AlreadyExists,
            Errno::Inval => ErrorKind::InvalidInput,
            Errno::Timedout => ErrorKind::TimedOut,
            Errno::Intr => ErrorKind::Interrupted,
            Errno::Opnotsupp => ErrorKind::Unsupported,
            Errno::Nomem => ErrorKind::OutOfMemory,
            _ => ErrorKind::Other,
        }
    }

    /// The kind of input or output error that the error number stands for.
    pub fn kind(&self) -> (kind: ErrorKind)
        ensures
            kind == self.spec_kind(),
    {
        ErrorKind::from(*self)
    }
}

impl From<Errno> for ErrorKind {
    fn from(value: Errno) -> (kind: Self)
        ensures
            kind == value.spec_kind(),
    {
        match value {
            Errno::Noent => ErrorKind::NotFound,
            Errno::Acces | Errno::Perm => ErrorKind::PermissionDenied,
            Errno::Connrefused => ErrorKind::ConnectionRefused,
            Errno::Connreset => ErrorKind::ConnectionReset,
            Errno::Connaborted => ErrorKind::ConnectionAborted,
            Errno::Notconn => ErrorKind::NotConnected,
            Errno::Addrinuse => ErrorKind::AddrInUse,
            Errno::Addrnotavail => ErrorKind::AddrNotAvailable,
            Errno::Pipe => ErrorKind::BrokenPipe,
            Errno::Exist => ErrorKind::AlreadyExists,
            Errno::Inval => ErrorKind::InvalidInput,
            Errno::Timedout => ErrorKind::TimedOut,
            Errno::Intr => ErrorKind::Interrupted,
            Errno::Opnotsupp => ErrorKind::Unsupported,
            Errno::Nomem => ErrorKind::OutOfMemory,
            _ => ErrorKind::Other,
        }
    }
}

impl vstd::std_specs::convert::FromSpecImpl<Errno> for ErrorKind {
    open spec fn obeys_from_spec() -> bool {
        true
    }

    open spec fn from_spec(value: Errno) -> Self {
        value.spec_kind()
    }
}

} // verus!
