//! Sizing and provisioning decisions made at startup: how many threads the
//! auxiliary worker pool gets, and which model size the machine's memory
//! allows. Reading the machine (thread counts, memory) is an outside
//! concern; the caller passes the readings in.

use vstd::prelude::*;

verus! {

/// Clamp a `usize` into the inclusive range `[lo, hi]`.
pub open spec fn spec_clamp_usize(x: int, lo: int, hi: int) -> int {
    if x < lo {
        lo
    } else if x > hi {
        hi
    } else {
        x
    }
}

/// How many threads the auxiliary worker pool gets: a third of the
/// available threads, clamped into [2, 8], leaving room for the I/O
/// scheduler and the engine's own threads.
pub fn rayon_thread_count(available_threads: usize) -> (r: usize)
    ensures
        r == spec_clamp_usize(available_threads as int / 3, 2, 8),
{
    let third = available_threads / 3;
    if third < 2 {
        2
    } else if third > 8 {
        8
    } else {
        third
    }
}

/// Which model size the machine's memory allows, from the total memory in
/// megabytes.
pub fn memory_recommendation(total_mem_mb: u64) -> (r: String)
    ensures
        total_mem_mb < 4096 ==> r@
            == "⚠️  Мало памяти (менее 4GB). Рекомендуется использовать модель small или base."@,
        4096 <= total_mem_mb < 8192 ==> r@
            == "Оптимально использовать модель medium или large-v3-q5_0."@,
        total_mem_mb >= 8192 ==> r@ == "Достаточно памяти для модели large-v3."@,
{
    if total_mem_mb < 4096 {
        "⚠️  Мало памяти (менее 4GB). Рекомендуется использовать модель small или base.".to_owned()
    } else if total_mem_mb < 8192 {
        "Оптимально использовать модель medium или large-v3-q5_0.".to_owned()
    } else {
        "Достаточно памяти для модели large-v3.".to_owned()
    }
}

} // verus!
