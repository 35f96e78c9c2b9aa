//! Virtual addresses.

use vstd::prelude::*;

verus! {

/// Whether bits 48 to 63 of `address` repeat bit 47, as the processor asks
/// of every virtual address.
pub open spec fn is_canonical(address: u64) -> bool {
    address < 0x0000_8000_0000_0000 || address >= 0xffff_8000_0000_0000
}

/// `memory_addresses::arch::x86_64::VirtAddr::try_new`, followed by `as_u64`:
/// the address itself when it is canonical, and `None` otherwise.
#[verifier::external_body]
pub(crate) fn canonical(address: u64) -> (checked: Option<u64>)
    ensures
        checked == (if is_canonical(address) {
            Some(address)
        } else {
            None
        }),
{
    match memory_addresses::arch::x86_64::VirtAddr::try_new(address) {
        Ok(valid) => Some(valid.as_u64()),
        Err(_) => None,
    }
}

} // verus!
