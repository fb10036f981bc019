//! The size of the thread pool that drives a run.
use vstd::prelude::*;

verus! {

/// How many threads drive a run: one for each iteration that may run at the
/// same time, and no more than the machine has cores.
pub open spec fn pool_size(cores: int, concurrency: int) -> int {
    if concurrency < cores {
        concurrency
    } else {
        cores
    }
}

/// Calls `num_cpus::get`: the number of logical cores that this process may
/// use. It differs from machine to machine, and it is never below one.
#[verifier::external_body]
fn available_cores() -> (cores: usize)
    ensures
        cores >= 1,
{
    num_cpus::get()
}

/// The number of threads for a run on a machine with `cores` cores.
pub fn worker_threads(cores: usize, concurrency: i64) -> (threads: usize)
    requires
        concurrency >= 1,
    ensures
        threads == pool_size(cores as int, concurrency as int),
{
    if (concurrency as u64) < (cores as u64) {
        concurrency as usize
    } else {
        cores
    }
}

/// The number of threads for a run on this machine. Whatever the machine,
/// there is at least one thread, and never more than one for each iteration
/// that may run at the same time.
pub fn default_worker_threads(concurrency: i64) -> (threads: usize)
    requires
        concurrency >= 1,
    ensures
        1 <= threads <= concurrency,
        exists|cores: int| cores >= 1 && threads == #[trigger] pool_size(cores, concurrency as int),
{
    let cores = available_cores();
    worker_threads(cores, concurrency)
}

} // verus!
