//! The bookkeeping of a worker pool: its size and the jobs that wait.

use std::collections::VecDeque;
use vstd::prelude::*;

verus! {

/// Why a pool was not made.
#[derive(Debug, PartialEq, Eq, Clone, Copy, Structural)]
pub enum PoolCreationError {
    /// A pool needs one worker at least.
    ZeroSize,
}

impl PoolCreationError {
    /// The name of the error.
    pub fn to_string(&self) -> (s: String)
        ensures
            s@ == "ZeroSize"@,
    {
        "ZeroSize".to_owned()
    }
}

/// Whether a pool can have `size` workers: it needs one at least.
pub open spec fn valid_pool_size(size: usize) -> bool {
    size >= 1
}

/// Accepts the number of workers that a pool can have.
pub fn check_pool_size(size: usize) -> (r: Result<(), PoolCreationError>)
    ensures
        r is Ok <==> valid_pool_size(size),
        r is Err ==> r == Err::<(), PoolCreationError>(PoolCreationError::ZeroSize),
{
    if size < 1 {
        return Err(PoolCreationError::ZeroSize);
    }
    Ok(())
}

/// The pool as plain values: the number of its workers and the jobs that
/// wait for one, the oldest first.
pub struct PoolView<J> {
    pub size: usize,
    pub pending: Seq<J>,
}

/// What is done to a pool: a job is handed in, or a worker asks for one.
pub enum PoolOp<J> {
    Execute(J),
    Claim,
}

impl<J> PoolView<J> {
    /// The pool after `job` was handed in: it waits behind the others.
    pub open spec fn execute(self, job: J) -> PoolView<J> {
        PoolView { pending: self.pending.push(job), ..self }
    }

    /// The pool after a worker asked for a job, and the job that the
    /// worker got: the oldest that waited, or none where none waited.
    pub open spec fn claim(self) -> (PoolView<J>, Option<J>) {
        if self.pending.len() == 0 {
            (self, None)
        } else {
            (PoolView { pending: self.pending.drop_first(), ..self }, Some(self.pending.first()))
        }
    }

    /// The pool after `ops` were done in turn, and the jobs that the
    /// workers got, in the order in which they got them.
    pub open spec fn after(self, ops: Seq<PoolOp<J>>) -> (PoolView<J>, Seq<J>)
        decreases ops.len(),
    {
        if ops.len() == 0 {
            (self, Seq::empty())
        } else {
            let (pool, claimed) = self.after(ops.drop_last());
            match ops.last() {
                PoolOp::Execute(job) => (pool.execute(job), claimed),
                PoolOp::Claim => match pool.claim().1 {
                    Some(job) => (pool.claim().0, claimed.push(job)),
                    None => (pool, claimed),
                },
            }
        }
    }
}

/// The jobs that `ops` hand in, in order.
pub open spec fn submitted<J>(ops: Seq<PoolOp<J>>) -> Seq<J>
    decreases ops.len(),
{
    if ops.len() == 0 {
        Seq::empty()
    } else {
        match ops.last() {
            PoolOp::Execute(job) => submitted(ops.drop_last()).push(job),
            PoolOp::Claim => submitted(ops.drop_last()),
        }
    }
}

/// Whatever is done to a pool that starts without jobs, and in whatever
/// order: the jobs that workers got, followed by those that still wait,
/// are the jobs that were handed in, each once and in the order in which
/// it was handed in. No job is lost, none goes to two workers, and the
/// number of workers stays.
pub proof fn lemma_each_job_once<J>(pool: PoolView<J>, ops: Seq<PoolOp<J>>)
    requires
        pool.pending.len() == 0,
    ensures
        pool.after(ops).1 + pool.after(ops).0.pending == submitted(ops),
        pool.after(ops).0.size == pool.size,
    decreases ops.len(),
{
    if ops.len() > 0 {
        lemma_each_job_once(pool, ops.drop_last());
    }
}

/// Once the workers have got as many jobs as were handed in, none waits
/// any more and the jobs they got are exactly those handed in.
pub proof fn lemma_all_jobs_claimed<J>(pool: PoolView<J>, ops: Seq<PoolOp<J>>)
    requires
        pool.pending.len() == 0,
        pool.after(ops).1.len() == submitted(ops).len(),
    ensures
        pool.after(ops).0.pending.len() == 0,
        pool.after(ops).1 == submitted(ops),
{
    lemma_each_job_once(pool, ops);
}

/// The bookkeeping of a pool of workers: how many workers there are, and
/// the jobs that wait for one. A job handed in goes to one worker, the
/// oldest job first.
pub struct ThreadPool<J> {
    size: usize,
    pending: VecDeque<J>,
}

impl<J> View for ThreadPool<J> {
    type V = PoolView<J>;

    closed spec fn view(&self) -> PoolView<J> {
        PoolView { size: self.size, pending: self.pending@ }
    }
}

impl<J> ThreadPool<J> {
    /// A pool of `size` workers without jobs. Refused where `size` is
    /// zero.
    pub fn build(size: usize) -> (r: Result<ThreadPool<J>, PoolCreationError>)
        ensures
            match r {
                Ok(pool) => valid_pool_size(size) && pool@ == (PoolView {
                    size,
                    pending: Seq::<J>::empty(),
                }),
                Err(e) => !valid_pool_size(size) && e == PoolCreationError::ZeroSize,
            },
    {
        if let Err(e) = check_pool_size(size) {
            return Err(e);
        }
        Ok(ThreadPool { size, pending: VecDeque::new() })
    }

    /// The number of workers.
    pub fn size(&self) -> (size: usize)
        ensures
            size == self@.size,
    {
        self.size
    }

    /// The number of jobs that wait.
    pub fn pending(&self) -> (n: usize)
        ensures
            n == self@.pending.len(),
    {
        self.pending.len()
    }

    /// Hands in `job`. It waits behind the jobs handed in before it; the
    /// call does not wait for it to be run.
    pub fn execute(&mut self, job: J)
        ensures
            final(self)@ == old(self)@.execute(job),
    {
        self.pending.push_back(job);
    }

    /// Takes the job that has waited longest, for a worker to run it.
    /// `None` where no job waits.
    pub fn claim(&mut self) -> (job: Option<J>)
        ensures
            (final(self)@, job) == old(self)@.claim(),
    {
        self.pending.pop_front()
    }
}

} // verus!
