//! Helpers on byte strings.

use vstd::prelude::*;

verus! {

/// The byte that ends a line.
pub const LINE_FEED: u8 = 10;

/// The byte that returns the carriage.
pub const CARRIAGE_RETURN: u8 = 13;

/// Appends `bytes` to `out`.
pub fn append(out: &mut Vec<u8>, bytes: &[u8])
    ensures
        final(out)@ == old(out)@ + bytes@,
{
    let mut i: usize = 0;
    while i < bytes.len()
        invariant
            i <= bytes@.len(),
            out@ == old(out)@ + bytes@.take(i as int),
        decreases bytes@.len() - i,
    {
        out.push(bytes[i]);
        i += 1;
        assert(out@ =~= old(out)@ + bytes@.take(i as int));
    }
    assert(bytes@.take(bytes@.len() as int) =~= bytes@);
}

/// Whether a line ends within `bytes`.
pub fn contains_line_feed(bytes: &[u8]) -> (found: bool)
    ensures
        found == bytes@.contains(LINE_FEED),
{
    let mut i: usize = 0;
    while i < bytes.len()
        invariant
            i <= bytes@.len(),
            forall|j: int| 0 <= j < i ==> bytes@[j] != LINE_FEED,
        decreases bytes@.len() - i,
    {
        if bytes[i] == LINE_FEED {
            return true;
        }
        i += 1;
    }
    false
}

/// Takes everything out of `out`, leaving it empty.
pub fn take_all(out: &mut Vec<u8>) -> (taken: Vec<u8>)
    ensures
        taken@ == old(out)@,
        final(out)@ == Seq::<u8>::empty(),
{
    let mut taken: Vec<u8> = Vec::new();
    taken.append(out);
    assert(taken@ =~= old(out)@);
    taken
}

} // verus!
