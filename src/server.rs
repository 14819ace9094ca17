use vstd::prelude::*;

verus! {

/// The most worker threads a runtime is started with.
pub const MAX_WORKER_THREADS: usize = 256;

/// A command sent to a running server.
#[derive(Clone, Copy, Debug, PartialEq, Eq)]
pub enum ServerCommand {
    Abort,
}

/// The shape of the async runtime a server is started on.
#[derive(Clone, Copy, Debug, PartialEq, Eq)]
pub enum RuntimePlan {
    /// Everything runs on the calling thread.
    CurrentThread,
    /// A pool of this many worker threads.
    MultiThread(usize),
}

/// Chooses the runtime for a requested thread count: 0 asks for one worker
/// per available core, 1 for a current-thread runtime, any other count for
/// that many workers, capped at `MAX_WORKER_THREADS`.
pub fn runtime_plan(n_threads: usize, available: usize) -> (r: RuntimePlan)
    ensures
        n_threads == 0 ==> r == RuntimePlan::MultiThread(available),
        n_threads == 1 ==> r == RuntimePlan::CurrentThread,
        1 < n_threads <= MAX_WORKER_THREADS ==> r == RuntimePlan::MultiThread(n_threads),
        n_threads > MAX_WORKER_THREADS ==> r == RuntimePlan::MultiThread(MAX_WORKER_THREADS),
{
    let n = if n_threads < MAX_WORKER_THREADS {
        n_threads
    } else {
        MAX_WORKER_THREADS
    };
    if n == 0 {
        RuntimePlan::MultiThread(available)
    } else if n == 1 {
        RuntimePlan::CurrentThread
    } else {
        RuntimePlan::MultiThread(n)
    }
}

} // verus!
