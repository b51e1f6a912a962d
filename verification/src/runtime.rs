//! The configuration and scheduling decisions of the runtime.
//!
//! A runtime has one pool of cross-scheduler threads and a number of local
//! schedulers, each a single thread. The builder fixes both counts; a task
//! sent to a local scheduler by index goes to the scheduler at that index
//! modulo their number.
use vstd::prelude::*;

verus! {

/// The kind of thread a task runs on.
#[derive(Debug, Clone, Copy, PartialEq, Eq)]
pub enum ThreadType {
    /// A worker of the cross-scheduler pool.
    Cross,
    /// The thread of the local scheduler at `index`.
    Local { index: usize },
    /// A thread of the caller's that entered the runtime by `block_on`.
    Foreign,
}

/// The thread counts of a runtime to be built; an unset count defaults to
/// the machine's available parallelism.
#[derive(Debug)]
pub struct Builder {
    cross_scheduler_threads_count: Option<usize>,
    local_scheduler_threads_count: Option<usize>,
}

impl Default for Builder {
    fn default() -> (r: Self)
        ensures
            r.cross_threads() == None::<usize>,
            r.local_threads() == None::<usize>,
    {
        Builder { cross_scheduler_threads_count: None, local_scheduler_threads_count: None }
    }
}

impl Builder {
    /// The number of cross-scheduler threads asked for, if any.
    pub closed spec fn cross_threads(self) -> Option<usize> {
        self.cross_scheduler_threads_count
    }

    /// The number of local schedulers asked for, if any.
    pub closed spec fn local_threads(self) -> Option<usize> {
        self.local_scheduler_threads_count
    }

    /// A builder with neither count set.
    pub fn new() -> (r: Self)
        ensures
            r.cross_threads() == None::<usize>,
            r.local_threads() == None::<usize>,
    {
        Default::default()
    }

    /// Sets the number of cross-scheduler threads; it must not be zero.
    pub fn cross_scheduler_threads(self, count: usize) -> (r: Self)
        requires
            count > 0,
        ensures
            r.cross_threads() == Some(count),
            r.local_threads() == self.local_threads(),
    {
        let mut this = self;
        this.cross_scheduler_threads_count = Some(count);
        this
    }

    /// Sets the number of local schedulers; it must not be zero.
    pub fn local_scheduler_threads(self, count: usize) -> (r: Self)
        requires
            count > 0,
        ensures
            r.local_threads() == Some(count),
            r.cross_threads() == self.cross_threads(),
    {
        let mut this = self;
        this.local_scheduler_threads_count = Some(count);
        this
    }

    /// The numbers of cross-scheduler threads and of local schedulers that
    /// `build` starts: the counts set, or `default_count` for each unset one.
    pub fn scheduler_threads(&self, default_count: usize) -> (r: (usize, usize))
        ensures
            r.0 == match self.cross_threads() {
                Some(c) => c,
                None => default_count,
            },
            r.1 == match self.local_threads() {
                Some(c) => c,
                None => default_count,
            },
    {
        let cross = match self.cross_scheduler_threads_count {
            Some(c) => c,
            None => default_count,
        };
        let local = match self.local_scheduler_threads_count {
            Some(c) => c,
            None => default_count,
        };
        (cross, local)
    }
}

/// The local scheduler that a task sent to `index` goes to, among `count`.
pub fn choose_local_scheduler(index: usize, count: usize) -> (r: usize)
    requires
        count > 0,
    ensures
        r == index % count,
        r < count,
{
    index % count
}

/// `rand::random::<usize>()`: a number drawn from the thread's generator.
/// Nothing is stated of which.
#[verifier::external_body]
fn random_index() -> usize {
    rand::random()
}

/// The local scheduler that a task sent to a random one goes to, among
/// `count`: a random index taken modulo `count`.
pub fn choose_random_local_scheduler(count: usize) -> (r: usize)
    requires
        count > 0,
    ensures
        r < count,
{
    let index = random_index();
    choose_local_scheduler(index, count)
}

} // verus!
