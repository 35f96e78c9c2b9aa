//! Random numbers for when the hardware has none.
//!
//! The generator is the linear congruential generator of Park, Miller and
//! Lehmer. It is not secure; it fills in where no source of entropy answers.
//! Its state is one number, the seed, which the caller keeps.

use vstd::prelude::*;
use crate::io::Error;

verus! {

/// The modulus of the generator.
pub const RAND_MAX: u64 = 0x7fff_ffff;

/// The multiplier of the generator.
pub const MULTIPLIER: u64 = 48271;

/// The number that follows `seed`.
pub open spec fn park_miller_lehmer(seed: u32) -> u32 {
    ((seed as int * MULTIPLIER as int) % (RAND_MAX as int)) as u32
}

/// The seed after `count` numbers have been drawn from `seed`.
pub open spec fn seed_after(seed: u32, count: nat) -> u32
    decreases count,
{
    if count == 0 {
        seed
    } else {
        park_miller_lehmer(seed_after(seed, (count - 1) as nat))
    }
}

/// Whether `buf` holds the low bytes of the numbers drawn from `seed`, one
/// number for each byte.
pub open spec fn drawn_from(buf: Seq<u8>, seed: u32) -> bool {
    forall|i: int| 0 <= i < buf.len() ==> #[trigger] buf[i] == seed_after(seed, (i + 1) as nat) % 256
}

/// Draws the next number, which becomes the seed of the one after it.
pub fn generate_park_miller_lehmer_random_number(seed: &mut u32) -> (random: u32)
    ensures
        random == park_miller_lehmer(*old(seed)),
        *final(seed) == random,
        random < RAND_MAX,
{
    let product: u64 = *seed as u64 * MULTIPLIER;
    let random = (product % RAND_MAX) as u32;
    *seed = random;
    random
}

/// Computes the next of a sequence of pseudo-random integers in the range
/// of 0 to `RAND_MAX`.
pub fn sys_rand(seed: &mut u32) -> (random: u32)
    ensures
        random == park_miller_lehmer(*old(seed)),
        *final(seed) == random,
        random < RAND_MAX,
{
    generate_park_miller_lehmer_random_number(seed)
}

/// Sets `seed` as the seed for a new sequence of pseudo-random numbers to be
/// returned by [`sys_rand`].
pub fn sys_srand(state: &mut u32, seed: u32)
    ensures
        *final(state) == seed,
{
    *state = seed;
}

/// Seeds the generator with the low 32 bits of `timestamp`.
pub fn init_entropy(state: &mut u32, timestamp: u64)
    ensures
        *final(state) == timestamp % 0x1_0000_0000,
{
    *state = (timestamp % 0x1_0000_0000) as u32;
}

/// Completes a read of entropy into `buf`, given whether every flag of the
/// read is known and what the source of entropy answered: the number of
/// bytes it wrote, or a negative number if it has none to give.
///
/// A read with a flag that is not known is an invalid argument: the result
/// is the negated number of `EINVAL` and nothing changes. Otherwise, where
/// the source has none, `buf` is filled with the low bytes of the numbers
/// drawn next from the generator, one number for each byte, and the result
/// is the length of `buf`; and where the source answered, nothing changes
/// and the result is its answer.
pub fn read_entropy(seed: &mut u32, buf: &mut [u8], flags_are_known: bool, answer: isize) -> (count:
    isize)
    requires
        old(buf)@.len() <= isize::MAX,
    ensures
        final(buf)@.len() == old(buf)@.len(),
        count == (if !flags_are_known {
            (-Error::EINVAL.spec_code()) as isize
        } else if answer < 0 {
            old(buf)@.len() as isize
        } else {
            answer
        }),
        !flags_are_known || answer >= 0 ==> final(buf)@ == old(buf)@ && *final(seed) == *old(seed),
        flags_are_known && answer < 0 ==> drawn_from(final(buf)@, *old(seed)) && *final(seed)
            == seed_after(*old(seed), old(buf)@.len()),
{
    if !flags_are_known {
        return -(Error::EINVAL.code() as isize);
    }
    if answer < 0 {
        let mut i: usize = 0;
        while i < buf.len()
            invariant
                buf@.len() == old(buf)@.len(),
                i <= buf@.len(),
                *seed == seed_after(*old(seed), i as nat),
                forall|j: int|
                    0 <= j < i ==> #[trigger] buf@[j] == seed_after(*old(seed), (j + 1) as nat) % 256,
            decreases buf@.len() - i,
        {
            let random = generate_park_miller_lehmer_random_number(seed);
            buf[i] = (random % 256) as u8;
            i += 1;
        }
        buf.len() as isize
    } else {
        answer
    }
}

} // verus!
