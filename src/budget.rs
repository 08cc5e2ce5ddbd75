//! Sizing of the index writer's memory arena and thread count from a
//! snapshot of the machine's free memory and logical CPU count.
use vstd::prelude::*;

verus! {

/// One gibibyte: the unit in which free memory is partitioned.
pub const CHUNK_BYTES: u64 = 1073741824;

/// Headroom kept back on machines with fewer than two free chunks (100 MiB).
pub const SMALL_HEADROOM_BYTES: u64 = 104857600;

/// The largest arena the indexing engine accepts for one writer thread.
pub const PER_THREAD_ARENA_MAX: u64 = 4293967294;

/// The smallest arena the indexing engine accepts for one writer thread.
pub const PER_THREAD_ARENA_MIN: u64 = 15000000;

/// The most writer threads a build ever uses.
pub const MAX_THREADS: usize = 8;

/// Thread count for a machine with `cpus` logical CPUs.
pub open spec fn spec_thread_count(cpus: nat) -> nat {
    if cpus < MAX_THREADS as nat { cpus } else { MAX_THREADS as nat }
}

/// The arena used when free memory is below the headroom, which includes
/// a probe that could not read memory and reports zero: the engine's
/// per-thread minimum for each writer thread.
pub open spec fn spec_fallback_budget(cpus: nat) -> nat {
    spec_thread_count(cpus) * (PER_THREAD_ARENA_MIN as nat)
}

/// Arena bytes before the per-thread ceiling is applied.
pub open spec fn spec_raw_budget(mem: nat, cpus: nat) -> nat {
    let chunks = mem / (CHUNK_BYTES as nat);
    if mem < SMALL_HEADROOM_BYTES as nat {
        spec_fallback_budget(cpus)
    } else if chunks < 2 {
        (mem - SMALL_HEADROOM_BYTES as nat) as nat
    } else {
        mem * ((chunks - 1) as nat)
    }
}

/// Arena bytes for `mem` free bytes and `cpus` logical CPUs.
pub open spec fn spec_arena_bytes(mem: nat, cpus: nat) -> nat {
    let cap = spec_thread_count(cpus) * (PER_THREAD_ARENA_MAX as nat);
    let raw = spec_raw_budget(mem, cpus);
    if raw < cap { raw } else { cap }
}

/// A writer's resources: arena size in bytes and number of writer threads.
#[derive(Clone, Copy, Debug, PartialEq, Eq, Structural)]
pub struct ResourceBudget {
    pub arena_bytes: u64,
    pub thread_count: usize,
}

/// Derives the writer's budget from free memory (bytes) and logical CPU count.
///
/// The thread count is `min(cpus, 8)`. Free memory is split into 1 GiB
/// chunks; with fewer than two the arena is the free memory less 100 MiB,
/// otherwise it is the free memory times one less than the chunk count. The
/// arena is then clamped to the thread count times the per-thread ceiling.
/// When less than 100 MiB is free (a probe that cannot read memory
/// reports 0), each thread gets the engine's per-thread minimum instead.
pub fn compute_budget(available_memory: u64, cpu_count: usize) -> (r: ResourceBudget)
    ensures
        r.thread_count as nat == spec_thread_count(cpu_count as nat),
        r.arena_bytes as nat == spec_arena_bytes(available_memory as nat, cpu_count as nat),
        available_memory < SMALL_HEADROOM_BYTES ==> r.arena_bytes as nat == spec_fallback_budget(
            cpu_count as nat,
        ),
        cpu_count >= 1 && available_memory != SMALL_HEADROOM_BYTES ==> r.arena_bytes > 0
            && r.thread_count > 0,
{
    let thread_count: usize = if cpu_count < MAX_THREADS { cpu_count } else { MAX_THREADS };
    let chunks: u64 = available_memory / CHUNK_BYTES;
    let cap: u64 = (thread_count as u64) * PER_THREAD_ARENA_MAX;
    let raw: u128 = if available_memory < SMALL_HEADROOM_BYTES {
        ((thread_count as u64) * PER_THREAD_ARENA_MIN) as u128
    } else if chunks < 2 {
        (available_memory - SMALL_HEADROOM_BYTES) as u128
    } else {
        assert((available_memory as nat) * ((chunks - 1) as nat) <= 0xffff_ffff_ffff_ffffnat * 0xffff_ffff_ffff_ffffnat)
            by (nonlinear_arith)
            requires
                (available_memory as nat) <= 0xffff_ffff_ffff_ffffnat,
                ((chunks - 1) as nat) <= 0xffff_ffff_ffff_ffffnat,
        ;
        assert((available_memory as nat) * ((chunks - 1) as nat) >= 1) by (nonlinear_arith)
            requires
                available_memory >= 1,
                chunks >= 2,
        ;
        (available_memory as u128) * ((chunks - 1) as u128)
    };
    let arena_bytes: u64 = if raw < cap as u128 { raw as u64 } else { cap };
    ResourceBudget { arena_bytes, thread_count }
}

/// The CPU count to budget for: a probe that reports no CPUs is taken to
/// mean one, so that a writer always gets at least one thread.
pub fn effective_cpu_count(reported: usize) -> (r: usize)
    ensures
        r == if reported == 0 { 1 } else { reported },
{
    if reported == 0 { 1 } else { reported }
}

/// The writer's budget from a machine probe as reported: a probe that
/// reports no CPUs counts as one, a probe that reports no memory gets the
/// engine's per-thread minimum, and otherwise the budget is
/// `compute_budget`'s. Both parts come out positive, except at exactly
/// 100 MiB free, where the arena is the free memory less 100 MiB, zero.
pub fn budget_from_probe(available_memory: u64, reported_cpus: usize) -> (r: ResourceBudget)
    ensures
        r.thread_count as nat == spec_thread_count(if reported_cpus == 0 { 1nat } else { reported_cpus as nat }),
        r.arena_bytes as nat == spec_arena_bytes(
            available_memory as nat,
            if reported_cpus == 0 { 1nat } else { reported_cpus as nat },
        ),
        r.thread_count > 0,
        available_memory != SMALL_HEADROOM_BYTES ==> r.arena_bytes > 0,
{
    let cpus = effective_cpu_count(reported_cpus);
    compute_budget(available_memory, cpus)
}

} // verus!
