//! The size of the pool of concurrent tasks.

use vstd::prelude::*;

verus! {

/// The number of concurrent tasks per logical CPU of the default pool.
pub const CPU_CONCURRENT: usize = 4;

/// The largest number of concurrent tasks of the default pool.
pub const MAX_CONCURRENT: usize = 100;

/// Calls `num_cpus::get`: the number of logical CPUs available, which its
/// documentation promises to be at least 1.
#[verifier::external_body]
fn logical_cpus() -> (n: usize)
    ensures
        n >= 1,
{
    num_cpus::get()
}

/// The capacity of a pool: `cpu_concurrent` tasks per CPU, but no more
/// than `max_concurrent`.
pub open spec fn spec_pool_capacity(cpus: usize, cpu_concurrent: usize, max_concurrent: usize) -> int {
    if cpu_concurrent * cpus < max_concurrent {
        cpu_concurrent * cpus
    } else {
        max_concurrent as int
    }
}

/// The capacity of a pool on `cpus` CPUs: `cpu_concurrent` tasks per CPU,
/// but no more than `max_concurrent`.
pub fn pool_capacity(cpus: usize, cpu_concurrent: usize, max_concurrent: usize) -> (r: usize)
    ensures
        r == spec_pool_capacity(cpus, cpu_concurrent, max_concurrent),
{
    match cpu_concurrent.checked_mul(cpus) {
        Some(n) => if n < max_concurrent {
            n
        } else {
            max_concurrent
        },
        None => max_concurrent,
    }
}

/// The capacity of a pool on this machine: `cpu_concurrent` tasks per
/// logical CPU, but no more than `max_concurrent`.
pub fn machine_pool_capacity(cpu_concurrent: usize, max_concurrent: usize) -> (r: usize)
    ensures
        exists|cpus: usize| cpus >= 1 && r == spec_pool_capacity(cpus, cpu_concurrent, max_concurrent),
        r <= max_concurrent,
{
    let cpus = logical_cpus();
    pool_capacity(cpus, cpu_concurrent, max_concurrent)
}

/// Whether a task must wait for a running one to finish before it starts:
/// the pool is full.
pub fn must_wait_for_slot(running: usize, max_concurrent: usize) -> (b: bool)
    ensures
        b == (running >= max_concurrent),
{
    running >= max_concurrent
}

/// The tasks a pool holds after it runs one more, holding `running`: when
/// it is full, one task is joined first (if there is one to join).
pub open spec fn spec_occupancy_after_run(running: usize, max_concurrent: usize) -> int {
    if running >= max_concurrent && running > 0 {
        running as int
    } else {
        running + 1
    }
}

/// The tasks a pool holds after it runs one more, holding `running` with a
/// limit of `max_concurrent`.
pub fn occupancy_after_run(running: usize, max_concurrent: usize) -> (r: usize)
    ensures
        r == spec_occupancy_after_run(running, max_concurrent),
{
    if must_wait_for_slot(running, max_concurrent) && running > 0 {
        running
    } else {
        running + 1
    }
}

/// The pool never holds more tasks than its limit: from at most
/// `max_concurrent` tasks (a limit of at least one), running one more
/// leaves at most `max_concurrent`, and at least the one just started.
pub proof fn lemma_pool_stays_bounded(running: usize, max_concurrent: usize)
    requires
        max_concurrent >= 1,
        running <= max_concurrent,
    ensures
        1 <= spec_occupancy_after_run(running, max_concurrent) <= max_concurrent,
{
}

} // verus!
