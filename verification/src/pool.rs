//! The worker pool: construction, job submission, and orderly teardown.

use crate::channel::channel_pair;
use crate::channel::guarded;
use crate::channel::recv_next;
use crate::channel::send_value;
use crate::channel::share;
use std::sync::mpsc::Receiver;
use std::sync::mpsc::Sender;
use std::sync::Arc;
use std::sync::Mutex;
use vstd::prelude::*;
use vstd::*;

verus! {

/// A single-execution unit of work: handed from the submitting thread to
/// whichever worker dequeues it, and run exactly once, on that worker's
/// thread.
pub trait Job: Sized + Send {
    /// Runs the job to completion on the calling worker thread.
    fn run(self);
}

/// Error reported by [`ThreadPool::build`].
#[derive(Debug, PartialEq, Eq, Structural)]
pub enum PoolCreationError {
    /// A pool must have at least one worker.
    ZeroSizedPool,
}

/// Error reported by [`ThreadPool::shutdown`].
#[derive(Debug, PartialEq, Eq, Structural)]
pub enum TeardownError {
    /// The thread of the worker with this id terminated abnormally: a job
    /// crashed on it instead of running to completion.
    WorkerPanicked { id: usize },
}

/// The retrieval endpoint of the job source, shared by every worker under
/// mutual exclusion: only one worker at a time may take the next job.
type JobSource<J> = Arc<Mutex<Receiver<J>>>;

/// One worker: a small id, unique within its pool, and the handle of its
/// dedicated thread, retained so that teardown can join it.
struct Worker {
    id: usize,
    handler: thread::JoinHandle<()>,
}

impl Worker {
    /// Spawns the worker's thread. The thread repeatedly takes exclusive
    /// access to the shared retrieval endpoint, dequeues the next job,
    /// releases the endpoint before running anything, then runs the job to
    /// completion; it exits once the job source reports closure.
    fn new<J: Job + 'static>(id: usize, receiver: JobSource<J>) -> (w: Worker)
        ensures
            w.id == id,
    {
        let handler = thread::spawn(move || {
            // The loop runs once per dequeued job and exits when the job
            // source closes. The termination check asks for a decreasing
            // measure even here, so the loop carries a step budget far
            // beyond what any execution can exhaust.
            let mut budget: u64 = u64::MAX;
            while budget > 0
                decreases budget,
            {
                budget = budget - 1;
                let message = recv_next(&receiver);
                match message {
                    Some(job) => job.run(),
                    None => break,
                }
            }
        });
        Worker { id, handler }
    }
}

/// The abstract state of a pool: the ids of the workers it still owns, in
/// order, and whether its submission endpoint is still open.
pub ghost struct PoolView {
    pub worker_ids: Seq<usize>,
    pub live: bool,
}

/// A fixed-size pool of worker threads, all drawing jobs from one shared
/// job source, plus the single submission endpoint of that source.
#[verifier::reject_recursive_types(J)]
pub struct ThreadPool<J> {
    workers: Vec<Worker>,
    sender: Option<Sender<J>>,
}

impl<J> View for ThreadPool<J> {
    type V = PoolView;

    closed spec fn view(&self) -> PoolView {
        PoolView {
            worker_ids: self.workers@.map_values(|w: Worker| w.id),
            live: self.sender is Some,
        }
    }
}

impl<J: Job + 'static> ThreadPool<J> {
    /// Builds a pool of exactly `size` workers with ids `0`, `1`, ...,
    /// `size - 1`, all attached to one fresh job source. A size of zero is
    /// a configuration error: no pool is produced and nothing is spawned.
    pub fn build(size: usize) -> (r: Result<ThreadPool<J>, PoolCreationError>)
        ensures
            size == 0 <==> (r matches Err(PoolCreationError::ZeroSizedPool)),
            size >= 1 ==> (r matches Ok(pool) && pool@.live && pool@.worker_ids.len() == size
                && (forall|i: int| 0 <= i < size ==> pool@.worker_ids[i] == i)),
    {
        if size == 0 {
            return Err(PoolCreationError::ZeroSizedPool);
        }
        let (sender, receiver) = channel_pair::<J>();
        let source: JobSource<J> = Arc::new(guarded(receiver));
        let mut workers: Vec<Worker> = Vec::with_capacity(size);
        let mut id: usize = 0;
        while id < size
            invariant
                id <= size,
                workers@.len() == id,
                forall|i: int| 0 <= i < id ==> workers@[i].id == i,
            decreases size - id,
        {
            workers.push(Worker::new(id, share(&source)));
            id = id + 1;
        }
        Ok(ThreadPool { workers, sender: Some(sender) })
    }

    /// Enqueues `job` at the back of the job source and returns without
    /// waiting for it to start or finish. Exactly one worker will dequeue
    /// it, in submission order. Should every worker thread have crashed,
    /// the job cannot be delivered and is handed back unchanged inside the
    /// error, a condition the caller must treat as fatal; the job is never
    /// silently dropped.
    pub fn execute(&self, job: J) -> (r: Result<(), J>)
        requires
            self@.live,
        ensures
            r matches Err(j) ==> j == job,
    {
        let sender = self.sender.as_ref().unwrap();
        send_value(sender, job)
    }

    /// The number of workers the pool currently owns.
    pub fn worker_count(&self) -> (n: usize)
        ensures
            n == self@.worker_ids.len(),
    {
        self.workers.len()
    }

    /// Tears the pool down: first closes the submission endpoint, which is
    /// what lets every worker's next receive report closure instead of
    /// blocking forever, and only then joins each remaining worker, in
    /// order, exactly once — even when an earlier join reports a crash.
    /// Reports the first worker whose thread terminated abnormally. On a
    /// pool that is already torn down it does nothing and succeeds.
    pub fn shutdown(&mut self) -> (r: Result<(), TeardownError>)
        ensures
            !final(self)@.live,
            final(self)@.worker_ids.len() == 0,
            old(self)@.worker_ids.len() == 0 ==> r is Ok,
            old(self)@.worker_ids.len() == 0 && !old(self)@.live ==> final(self)@ == old(self)@,
            r matches Err(TeardownError::WorkerPanicked { id }) ==> old(
                self,
            )@.worker_ids.contains(id),
    {
        // Dropping the submission endpoint here, before any join, is what
        // closes the job source; joining first would deadlock on a worker
        // blocked waiting for a job that will never arrive.
        self.sender = None;
        proof {
            assert forall|i: int|
                0 <= i < self.workers@.len() implies old(self)@.worker_ids.contains(
                self.workers@[i].id,
            ) by {
                assert(old(self)@.worker_ids[i] == self.workers@[i].id);
            }
        }
        let mut failure: Option<TeardownError> = None;
        while self.workers.len() > 0
            invariant
                self.sender is None,
                self.workers@.len() <= old(self)@.worker_ids.len(),
                forall|i: int|
                    0 <= i < self.workers@.len() ==> old(self)@.worker_ids.contains(
                        #[trigger] self.workers@[i].id,
                    ),
                failure matches Some(TeardownError::WorkerPanicked { id }) ==> old(
                    self,
                )@.worker_ids.contains(id),
            decreases self.workers@.len(),
        {
            let worker = self.workers.remove(0);
            let joined = worker.handler.join();
            if joined.is_err() && failure.is_none() {
                failure = Some(TeardownError::WorkerPanicked { id: worker.id });
            }
        }
        proof {
            if old(self)@.worker_ids.len() == 0 && !old(self)@.live {
                assert(self.workers@ =~= old(self).workers@);
                assert(self@.worker_ids =~= old(self)@.worker_ids);
            }
        }
        match failure {
            Some(e) => Err(e),
            None => Ok(()),
        }
    }
}

/// The workers of a freshly built pool carry pairwise distinct ids, each
/// below the requested size: this is a consequence of the id layout that
/// [`ThreadPool::build`] guarantees.
pub proof fn lemma_fresh_pool_ids_unique(v: PoolView, size: usize)
    requires
        v.worker_ids.len() == size,
        forall|i: int| 0 <= i < size ==> v.worker_ids[i] == i,
    ensures
        forall|i: int, j: int| 0 <= i < j < size ==> v.worker_ids[i] != v.worker_ids[j],
        forall|i: int| 0 <= i < size ==> v.worker_ids[i] < size,
{
}

} // verus!
