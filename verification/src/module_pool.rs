//! The pool the modules run on: how many workers it is meant to have, and the
//! runtime, once one has been built for it.

use tokio::runtime::Runtime;
use vstd::prelude::*;

verus! {

/// `tokio::runtime::Runtime`, a running task scheduler.
#[verifier::external_type_specification]
#[verifier::external_body]
pub struct ExRuntime(tokio::runtime::Runtime);

/// The background pool that runs the modules.
pub struct ModulePool {
    worker_threads: usize,
    thread_pool: Option<Runtime>,
}

impl ModulePool {
    /// The number of worker threads the pool is meant to run.
    pub closed spec fn spec_worker_threads(&self) -> usize {
        self.worker_threads
    }

    /// The runtime of the pool, once built.
    pub closed spec fn spec_runtime(&self) -> Option<Runtime> {
        self.thread_pool
    }

    /// A pool of `worker_threads` workers, with no runtime yet.
    pub fn new(worker_threads: usize) -> (r: ModulePool)
        ensures
            r.spec_worker_threads() == worker_threads,
            r.spec_runtime() is None,
    {
        ModulePool { worker_threads, thread_pool: None }
    }

    /// The number of worker threads the pool is meant to run.
    pub fn worker_threads(&self) -> (r: usize)
        ensures
            r == self.spec_worker_threads(),
    {
        self.worker_threads
    }

    /// Installs the runtime built for this pool; modules added from now on run on it.
    pub fn build(&mut self, runtime: Runtime)
        ensures
            final(self).spec_runtime() == Some(runtime),
            final(self).spec_worker_threads() == old(self).spec_worker_threads(),
    {
        self.thread_pool = Some(runtime);
    }

    /// Where a module added now runs: the pool's runtime, or nowhere while none is built.
    pub fn runtime(&self) -> (r: Option<&Runtime>)
        ensures
            match r {
                Some(rt) => self.spec_runtime() == Some(*rt),
                None => self.spec_runtime() is None,
            },
    {
        match &self.thread_pool {
            Some(rt) => Some(rt),
            None => None,
        }
    }
}

} // verus!
