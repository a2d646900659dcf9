//! Bit rotations on machine words, by a fixed number of places.
use vstd::prelude::*;

verus! {

/// `x` rotated left by `k` places within 32 bits.
pub open spec fn spec_rotl32(x: u32, k: u32) -> u32 {
    (x << k) | (x >> ((32 - k) as u32))
}

/// `x` rotated left by `k` places within 64 bits.
pub open spec fn spec_rotl64(x: u64, k: u32) -> u64 {
    (x << k) | (x >> ((64 - k) as u32))
}

/// `x` rotated right by `k` places within 64 bits.
pub open spec fn spec_rotr64(x: u64, k: u32) -> u64 {
    (x >> k) | (x << ((64 - k) as u32))
}

/// Rotates a 32-bit word left by `k` places.
pub fn rotl32(x: u32, k: u32) -> (r: u32)
    requires
        0 < k < 32,
    ensures
        r == spec_rotl32(x, k),
{
    (x << k) | (x >> (32 - k))
}

/// Rotates a 64-bit word left by `k` places.
pub fn rotl64(x: u64, k: u32) -> (r: u64)
    requires
        0 < k < 64,
    ensures
        r == spec_rotl64(x, k),
{
    (x << k) | (x >> (64 - k))
}

/// Rotates a 64-bit word right by `k` places.
pub fn rotr64(x: u64, k: u32) -> (r: u64)
    requires
        0 < k < 64,
    ensures
        r == spec_rotr64(x, k),
{
    (x >> k) | (x << (64 - k))
}

} // verus!
