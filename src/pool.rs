use vstd::prelude::*;

verus! {

/// Why a pool could not be built.
#[derive(Debug)]
pub enum PoolCreationError {
    ZeroThreads(&'static str),
}

/// The identifiers of the workers that a pool of `size` threads starts:
/// `0, 1, ..., size - 1`, or `ZeroThreads` when `size` is zero.
pub fn worker_ids(size: usize) -> (r: Result<Vec<usize>, PoolCreationError>)
    ensures
        size == 0 <==> r is Err,
        r is Err ==> r->Err_0 is ZeroThreads,
        r is Ok ==> r->Ok_0@.len() == size && forall|i: int|
            0 <= i < size ==> #[trigger] r->Ok_0@[i] == i,
{
    if size == 0 {
        return Err(PoolCreationError::ZeroThreads("Attempted to create a pool with zero threads"));
    }
    let mut ids: Vec<usize> = Vec::with_capacity(size);
    let mut i: usize = 0;
    while i < size
        invariant
            i <= size,
            ids@.len() == i,
            forall|j: int| 0 <= j < i ==> #[trigger] ids@[j] == j,
        decreases size - i,
    {
        ids.push(i);
        i = i + 1;
    }
    Ok(ids)
}

} // verus!

verus! {

/// The queue through which jobs pass from the submitter to the workers, with
/// a record of every job submitted and of which worker took each one.
pub struct JobQueue<T> {
    pending: std::collections::VecDeque<T>,
    submitted: Ghost<Seq<T>>,
    taken: Ghost<Seq<(usize, T)>>,
}

/// The jobs of a record of takes, in the order they were taken.
pub open spec fn jobs_of<T>(taken: Seq<(usize, T)>) -> Seq<T> {
    taken.map_values(|p: (usize, T)| p.1)
}

impl<T> JobQueue<T> {
    /// Jobs waiting, oldest first.
    pub closed spec fn pending(self) -> Seq<T> {
        self.pending@
    }

    /// Every job ever submitted, in order.
    pub closed spec fn submitted(self) -> Seq<T> {
        self.submitted@
    }

    /// Every take so far: the worker, and the job it was handed.
    pub closed spec fn taken(self) -> Seq<(usize, T)> {
        self.taken@
    }

    /// The jobs submitted are those taken, in order, followed by those waiting.
    pub closed spec fn wf(self) -> bool {
        self.submitted@ == jobs_of(self.taken@) + self.pending@
    }

    /// An empty queue with nothing submitted.
    pub fn new() -> (r: JobQueue<T>)
        ensures
            r.wf(),
            r.pending() == Seq::<T>::empty(),
            r.submitted() == Seq::<T>::empty(),
            r.taken() == Seq::<(usize, T)>::empty(),
    {
        let r = JobQueue {
            pending: std::collections::VecDeque::new(),
            submitted: Ghost(Seq::empty()),
            taken: Ghost(Seq::empty()),
        };
        proof {
            assert(jobs_of(r.taken@) + r.pending@ =~= Seq::<T>::empty());
        }
        r
    }

    /// Queues `job` behind every job already waiting.
    pub fn push(&mut self, job: T)
        requires
            old(self).wf(),
        ensures
            final(self).wf(),
            final(self).pending() == old(self).pending().push(job),
            final(self).submitted() == old(self).submitted().push(job),
            final(self).taken() == old(self).taken(),
    {
        proof {
            assert(jobs_of(self.taken@) + self.pending@.push(job) =~= self.submitted@.push(job));
        }
        self.pending.push_back(job);
        self.submitted = Ghost(self.submitted@.push(job));
    }

    /// Hands the oldest waiting job to `worker` and records the take, or
    /// returns `None` and changes nothing when no job is waiting.
    pub fn take(&mut self, worker: usize) -> (r: Option<T>)
        requires
            old(self).wf(),
        ensures
            final(self).wf(),
            final(self).submitted() == old(self).submitted(),
            old(self).pending().len() == 0 ==> r is None && final(self).pending() == old(self).pending()
                && final(self).taken() == old(self).taken(),
            old(self).pending().len() > 0 ==> r == Some(old(self).pending()[0]) && final(self).pending()
                == old(self).pending().drop_first() && final(self).taken() == old(self).taken().push(
                (worker, old(self).pending()[0]),
            ),
    {
        let r = self.pending.pop_front();
        match r {
            Some(job) => {
                let ghost old_pending = old(self).pending@;
                proof {
                    let t2 = self.taken@.push((worker, old_pending[0]));
                    assert(jobs_of(t2) =~= jobs_of(self.taken@).push(old_pending[0]));
                    assert(jobs_of(t2) + self.pending@ =~= jobs_of(self.taken@) + old_pending);
                    assert(self.pending@ =~= old_pending.drop_first());
                }
                self.taken = Ghost(self.taken@.push((worker, job)));
                Some(job)
            },
            None => None,
        }
    }
}

/// Every submitted job is, by its place in the order of submission, either
/// taken by exactly one worker, in that same place of the record of takes, or
/// still waiting; never both, and never taken twice.
pub proof fn lemma_each_job_once<T>(q: JobQueue<T>)
    requires
        q.wf(),
    ensures
        q.submitted().len() == q.taken().len() + q.pending().len(),
        forall|i: int| 0 <= i < q.taken().len() ==> #[trigger] q.taken()[i].1 == q.submitted()[i],
        forall|j: int|
            0 <= j < q.pending().len() ==> #[trigger] q.pending()[j] == q.submitted()[q.taken().len() + j],
{
    reveal(JobQueue::wf);
    assert forall|i: int| 0 <= i < q.taken().len() implies #[trigger] q.taken()[i].1 == q.submitted()[i] by {
        assert(q.submitted()[i] == (jobs_of(q.taken()) + q.pending())[i]);
    }
    assert forall|j: int| 0 <= j < q.pending().len() implies #[trigger] q.pending()[j] == q.submitted()[q.taken().len() + j] by {
        assert(q.submitted()[q.taken().len() + j] == (jobs_of(q.taken()) + q.pending())[q.taken().len() + j]);
    }
}

/// Once no job is waiting, the jobs taken are exactly the jobs submitted, in
/// order: each was handed out once, to one worker.
pub proof fn lemma_drained_all_taken_once<T>(q: JobQueue<T>)
    requires
        q.wf(),
        q.pending().len() == 0,
    ensures
        jobs_of(q.taken()) == q.submitted(),
{
    reveal(JobQueue::wf);
    assert(jobs_of(q.taken()) + q.pending() =~= jobs_of(q.taken()));
}

} // verus!
