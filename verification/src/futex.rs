//! What a wait on a futex is given.

use vstd::prelude::*;
use crate::io::Errno;

verus! {

/// The timeout of a wait in microseconds, from what the caller passed: no
/// timeout at all, or a time that is either a number of microseconds or too
/// long to be one.
///
/// A wait without a timeout has none. A time that is too long, or negative,
/// is an invalid argument.
pub fn timeout_in_microseconds(timeout: Option<Option<i64>>) -> (microseconds: Result<
    Option<u64>,
    Errno,
>)
    ensures
        microseconds == (match timeout {
            None => Ok(None),
            Some(Some(usec)) if usec >= 0 => Ok(Some(usec as u64)),
            Some(_) => Err(Errno::Inval),
        }),
{
    match timeout {
        None => Ok(None),
        Some(Some(usec)) => {
            if usec >= 0 {
                Ok(Some(usec as u64))
            } else {
                Err(Errno::Inval)
            }
        },
        Some(None) => Err(Errno::Inval),
    }
}

/// Checks what a wait on a futex is given: the address must not be null,
/// the timeout must be a time, and the flags must all be known.
///
/// On success the result is the timeout in microseconds, if there is one.
pub fn check_wait(address_is_null: bool, timeout: Option<Option<i64>>, flags_are_known: bool) -> (checked:
    Result<Option<u64>, Errno>)
    ensures
        checked == (if address_is_null || !flags_are_known {
            Err(Errno::Inval)
        } else {
            match timeout {
                None => Ok(None),
                Some(Some(usec)) if usec >= 0 => Ok(Some(usec as u64)),
                Some(_) => Err(Errno::Inval),
            }
        }),
{
    if address_is_null {
        return Err(Errno::Inval);
    }
    let microseconds = match timeout_in_microseconds(timeout) {
        Ok(microseconds) => microseconds,
        Err(error) => { return Err(error); },
    };
    if !flags_are_known {
        return Err(Errno::Inval);
    }
    Ok(microseconds)
}

} // verus!
