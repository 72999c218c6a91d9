//! Fixed-width values that everything else is made of.

use vstd::prelude::*;

verus! {

/// A 160-bit account address, most significant bits in `high`.
#[derive(Clone, Copy, Debug, PartialEq, Eq, Structural, Hash)]
pub struct Address {
    pub high: u32,
    pub low: u128,
}

/// A 256-bit machine word, most significant half in `high`.
#[derive(Clone, Copy, Debug, PartialEq, Eq, Structural, Hash)]
pub struct Word {
    pub high: u128,
    pub low: u128,
}

/// The low bits of the system messenger's address.
pub const L1_MESSENGER_LOW: u128 = 0x8008;

/// The address of the system messenger, as a specification value.
pub open spec fn spec_l1_messenger_address() -> Address {
    Address { high: 0, low: 0x8008 }
}

/// The address of the system messenger: the contract whose emissions are the
/// user-originated cross-layer messages.
pub fn l1_messenger_address() -> (a: Address)
    ensures
        a == spec_l1_messenger_address(),
{
    Address { high: 0, low: L1_MESSENGER_LOW }
}

/// `a + b`, or the largest value where the sum does not fit.
pub open spec fn spec_saturating_add(a: u64, b: u64) -> u64 {
    if a + b <= u64::MAX {
        (a + b) as u64
    } else {
        u64::MAX
    }
}

/// Adds two counters without wrapping.
pub fn saturating_add(a: u64, b: u64) -> (r: u64)
    ensures
        r == spec_saturating_add(a, b),
        r >= a,
        r >= b,
{
    if b <= u64::MAX - a {
        a + b
    } else {
        u64::MAX
    }
}

/// A copy of a vector of plain values.
pub fn copy_vec<T: Copy>(v: &Vec<T>) -> (r: Vec<T>)
    ensures
        r@ == v@,
{
    let mut r: Vec<T> = Vec::new();
    let mut i: usize = 0;
    while i < v.len()
        invariant
            i <= v.len(),
            r@ == v@.take(i as int),
        decreases v.len() - i,
    {
        r.push(v[i]);
        proof {
            assert(v@.take(i + 1) =~= v@.take(i as int).push(v@[i as int]));
        }
        i += 1;
    }
    proof {
        assert(v@.take(v.len() as int) =~= v@);
    }
    r
}

/// Appends every value of `src` to `dst`, in order.
pub fn append_vec<T: Copy>(dst: &mut Vec<T>, src: &Vec<T>)
    ensures
        final(dst)@ == old(dst)@ + src@,
{
    let mut i: usize = 0;
    while i < src.len()
        invariant
            i <= src.len(),
            dst@ == old(dst)@ + src@.take(i as int),
        decreases src.len() - i,
    {
        dst.push(src[i]);
        proof {
            assert(src@.take(i + 1) =~= src@.take(i as int).push(src@[i as int]));
            assert(old(dst)@ + src@.take(i + 1) =~= (old(dst)@ + src@.take(i as int)).push(
                src@[i as int],
            ));
        }
        i += 1;
    }
    proof {
        assert(src@.take(src.len() as int) =~= src@);
    }
}

} // verus!
