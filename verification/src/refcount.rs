//! Reference-count arithmetic with overflow and underflow hardening: a count
//! never passes `MAX_REFCOUNT` and never goes below zero (the kernel build
//! stops the machine instead; here those inputs are excluded by contract).

use vstd::prelude::*;

verus! {

/// The largest count a COM object may reach (`i32::MAX`).
pub const MAX_REFCOUNT: u32 = 2147483647;

/// Takes one more reference and returns the new count.
pub fn add(ref_count: &mut u32) -> (r: u32)
    requires
        *old(ref_count) < MAX_REFCOUNT,
    ensures
        *final(ref_count) == *old(ref_count) + 1,
        r == *final(ref_count),
{
    *ref_count = *ref_count + 1;
    *ref_count
}

/// Drops one reference and returns the new count.
pub fn sub(ref_count: &mut u32) -> (r: u32)
    requires
        *old(ref_count) > 0,
    ensures
        *final(ref_count) == *old(ref_count) - 1,
        r == *final(ref_count),
{
    *ref_count = *ref_count - 1;
    *ref_count
}

} // verus!
