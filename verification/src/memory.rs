//! Conversion of a raw byte count of physical memory into whole gigabytes.

use vstd::prelude::*;
use vstd::arithmetic::div_mod::lemma_div_is_ordered;

verus! {

/// The number of whole gigabytes that `bytes` bytes amount to, obtained by
/// three successive truncating divisions by 1024 (bytes to KB to MB to GB).
pub open spec fn spec_memory_gb(bytes: int) -> int {
    bytes / 1024 / 1024 / 1024
}

/// Total physical memory in whole gigabytes. The value is integer-divided by
/// 1024 three times, truncating at each step, rather than divided once by
/// 1024^3; the two agree on the quotient but this is the documented policy.
pub fn get_total_memory_gb(total_memory_bytes: u64) -> (gb: u64)
    ensures
        gb == spec_memory_gb(total_memory_bytes as int),
{
    let total_memory_kb = total_memory_bytes / 1024;
    let total_memory_mb = total_memory_kb / 1024;
    total_memory_mb / 1024
}

/// More bytes never report fewer whole gigabytes.
pub proof fn lemma_memory_gb_monotonic(a: int, b: int)
    requires
        0 <= a <= b,
    ensures
        spec_memory_gb(a) <= spec_memory_gb(b),
{
    lemma_div_is_ordered(a, b, 1024);
    lemma_div_is_ordered(a / 1024, b / 1024, 1024);
    lemma_div_is_ordered(a / 1024 / 1024, b / 1024 / 1024, 1024);
}

} // verus!
