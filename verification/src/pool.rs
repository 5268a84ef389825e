//! The worker-pool state machine: a fixed set of workers, a queue of job
//! ids, and an open/closed flag for the producer side.
//!
//! This is the decision core of the pool. The runtime around it spawns the
//! threads, blocks on its channel, and performs the jobs; every decision —
//! whether a submission is accepted, which job a worker receives, when a
//! worker stops — is taken here, so each job is handed to exactly one
//! worker and a closed queue never accepts new work.

use vstd::prelude::*;

verus! {

/// What one worker is doing: waiting for a job, running one, or stopped for
/// good after the queue closed.
#[derive(PartialEq, Eq, Structural, Clone, Copy, Debug)]
pub enum WorkerState {
    Idle,
    Busy(u64),
    Stopped,
}

/// The job id a busy worker holds (zero for the other states).
pub open spec fn job_of(w: WorkerState) -> u64 {
    match w {
        WorkerState::Busy(j) => j,
        _ => 0,
    }
}

/// What a worker's request for work came back with: a job to run, nothing
/// yet (the queue is open but empty, so the caller should block and retry),
/// or the signal that the queue closed and the worker must stop.
#[derive(PartialEq, Eq, Structural, Clone, Copy, Debug)]
pub enum TakeOutcome {
    Job(u64),
    WouldBlock,
    Closed,
}

/// Why a submission was refused.
#[derive(PartialEq, Eq, Structural, Clone, Copy, Debug)]
pub enum SubmitError {
    QueueClosed,
}

/// The mathematical model of the pool.
pub struct PoolModel {
    pub workers: Seq<WorkerState>,
    pub pending: Seq<u64>,
    pub completed: Seq<u64>,
    pub next_job: u64,
    pub accepting: bool,
}

/// How many workers are running a job.
pub open spec fn count_busy(ws: Seq<WorkerState>) -> nat
    decreases ws.len(),
{
    if ws.len() == 0 {
        0
    } else {
        count_busy(ws.drop_last()) + if ws.last() is Busy {
            1nat
        } else {
            0nat
        }
    }
}

/// How many workers have stopped.
pub open spec fn count_stopped(ws: Seq<WorkerState>) -> nat
    decreases ws.len(),
{
    if ws.len() == 0 {
        0
    } else {
        count_stopped(ws.drop_last()) + if ws.last() is Stopped {
            1nat
        } else {
            0nat
        }
    }
}

/// How many workers are still live (idle or busy).
pub open spec fn count_live(ws: Seq<WorkerState>) -> nat
    decreases ws.len(),
{
    if ws.len() == 0 {
        0
    } else {
        count_live(ws.drop_last()) + if ws.last() is Stopped {
            0nat
        } else {
            1nat
        }
    }
}

impl PoolModel {
    /// Exactly-once delivery, as a state invariant: job ids are issued from
    /// a counter, every queued id is distinct and not in any worker's hands
    /// nor already completed, no two workers hold the same job, and no
    /// completed job is recorded twice.
    pub open spec fn wf(self) -> bool {
        &&& forall|i: int, j: int|
            0 <= i < j < self.pending.len() ==> self.pending[i] != self.pending[j]
        &&& forall|i: int| 0 <= i < self.pending.len() ==> self.pending[i] < self.next_job
        &&& forall|w: int|
            0 <= w < self.workers.len() && self.workers[w] is Busy ==> job_of(self.workers[w])
                < self.next_job
        &&& forall|w1: int, w2: int|
            0 <= w1 < w2 < self.workers.len() && self.workers[w1] is Busy
                && self.workers[w2] is Busy ==> job_of(self.workers[w1]) != job_of(
                self.workers[w2],
            )
        &&& forall|i: int, w: int|
            0 <= i < self.pending.len() && 0 <= w < self.workers.len()
                && self.workers[w] is Busy ==> self.pending[i] != job_of(self.workers[w])
        &&& forall|i: int, j: int|
            0 <= i < j < self.completed.len() ==> self.completed[i] != self.completed[j]
        &&& forall|i: int| 0 <= i < self.completed.len() ==> self.completed[i] < self.next_job
        &&& forall|i: int, j: int|
            0 <= i < self.pending.len() && 0 <= j < self.completed.len() ==> self.pending[i]
                != self.completed[j]
        &&& forall|w: int, j: int|
            0 <= w < self.workers.len() && self.workers[w] is Busy && 0 <= j
                < self.completed.len() ==> job_of(self.workers[w]) != self.completed[j]
    }
}

/// How one update to a worker's state moves the three counts.
pub proof fn lemma_counts_update(ws: Seq<WorkerState>, w: int, v: WorkerState)
    requires
        0 <= w < ws.len(),
    ensures
        count_busy(ws.update(w, v)) == count_busy(ws) - (if ws[w] is Busy {
            1int
        } else {
            0int
        }) + (if v is Busy {
            1int
        } else {
            0int
        }),
        count_stopped(ws.update(w, v)) == count_stopped(ws) - (if ws[w] is Stopped {
            1int
        } else {
            0int
        }) + (if v is Stopped {
            1int
        } else {
            0int
        }),
        count_live(ws.update(w, v)) == count_live(ws) - (if ws[w] is Stopped {
            0int
        } else {
            1int
        }) + (if v is Stopped {
            0int
        } else {
            1int
        }),
    decreases ws.len(),
{
    let post = ws.update(w, v);
    if w == ws.len() - 1 {
        assert(post.drop_last() =~= ws.drop_last());
        assert(post.last() == v);
    } else {
        assert(post.drop_last() =~= ws.drop_last().update(w, v));
        assert(post.last() == ws.last());
        lemma_counts_update(ws.drop_last(), w, v);
        assert(ws.drop_last()[w] == ws[w]);
    }
}

/// No more workers can be busy than there are workers: the pool size bounds
/// the number of jobs in flight, whatever the queue holds.
pub proof fn lemma_busy_at_most_workers(ws: Seq<WorkerState>)
    ensures
        count_busy(ws) <= ws.len(),
    decreases ws.len(),
{
    if ws.len() > 0 {
        lemma_busy_at_most_workers(ws.drop_last());
    }
}

/// A saturated pool has no idle worker: when as many jobs are in flight as
/// there are workers, every worker is busy, so no further job can be handed
/// out — delivery demands an idle worker — and a queued job waits until one
/// of the running jobs completes.
pub proof fn lemma_saturated_all_busy(ws: Seq<WorkerState>)
    requires
        count_busy(ws) == ws.len(),
    ensures
        forall|w: int| 0 <= w < ws.len() ==> ws[w] is Busy,
    decreases ws.len(),
{
    if ws.len() > 0 {
        lemma_busy_at_most_workers(ws.drop_last());
        assert(ws.last() is Busy);
        lemma_saturated_all_busy(ws.drop_last());
        assert forall|w: int| 0 <= w < ws.len() implies ws[w] is Busy by {
            if w < ws.len() - 1 {
                assert(ws.drop_last()[w] is Busy);
            }
        }
    }
}

/// Handing a job to an idle worker occupies exactly that one worker: one
/// more is busy, none stops.
pub proof fn lemma_delivery_occupies_one(ws: Seq<WorkerState>, w: int, j: u64)
    requires
        0 <= w < ws.len(),
        ws[w] is Idle,
    ensures
        count_busy(ws.update(w, WorkerState::Busy(j))) == count_busy(ws) + 1,
        count_live(ws.update(w, WorkerState::Busy(j))) == count_live(ws),
    decreases ws.len(),
{
    lemma_counts_update(ws, w, WorkerState::Busy(j));
}

/// A worker finishing its job frees exactly that one worker.
pub proof fn lemma_finish_frees_one(ws: Seq<WorkerState>, w: int)
    requires
        0 <= w < ws.len(),
        ws[w] is Busy,
    ensures
        count_busy(ws.update(w, WorkerState::Idle)) == count_busy(ws) - 1,
        count_live(ws.update(w, WorkerState::Idle)) == count_live(ws),
{
    lemma_counts_update(ws, w, WorkerState::Idle);
}

/// During teardown each stop removes exactly one live worker: the live
/// count decreases one at a time to zero.
pub proof fn lemma_stop_removes_one(ws: Seq<WorkerState>, w: int)
    requires
        0 <= w < ws.len(),
        ws[w] is Idle,
    ensures
        count_live(ws.update(w, WorkerState::Stopped)) == count_live(ws) - 1,
        count_busy(ws.update(w, WorkerState::Stopped)) == count_busy(ws),
{
    lemma_counts_update(ws, w, WorkerState::Stopped);
}

/// From construction until teardown begins every worker is live: a pool of
/// idle workers has its full size live and nothing in flight.
pub proof fn lemma_all_idle_all_live(ws: Seq<WorkerState>)
    requires
        forall|w: int| 0 <= w < ws.len() ==> ws[w] is Idle,
    ensures
        count_live(ws) == ws.len(),
        count_busy(ws) == 0,
    decreases ws.len(),
{
    if ws.len() > 0 {
        assert(forall|w: int| 0 <= w < ws.drop_last().len() ==> ws.drop_last()[w] is Idle);
        lemma_all_idle_all_live(ws.drop_last());
    }
}

/// After teardown completes no worker remains runnable: once every worker
/// has taken the closed signal and stopped, none is live.
pub proof fn lemma_all_stopped_none_live(ws: Seq<WorkerState>)
    requires
        forall|w: int| 0 <= w < ws.len() ==> ws[w] is Stopped,
    ensures
        count_live(ws) == 0,
    decreases ws.len(),
{
    if ws.len() > 0 {
        assert(forall|w: int| 0 <= w < ws.drop_last().len() ==> ws.drop_last()[w] is Stopped);
        lemma_all_stopped_none_live(ws.drop_last());
    }
}

/// The invariant does not mention the open/closed flag: any state change
/// that keeps the queue, the workers, the record and the counter keeps it.
pub proof fn lemma_wf_same_parts(pre: PoolModel, post: PoolModel)
    requires
        pre.wf(),
        post.workers == pre.workers,
        post.pending == pre.pending,
        post.completed == pre.completed,
        post.next_job == pre.next_job,
    ensures
        post.wf(),
{
}

/// Accepting a job preserves the invariant: the fresh id is above every id
/// already queued, held or completed, so it collides with none of them.
pub proof fn lemma_wf_submit(pre: PoolModel, post: PoolModel)
    requires
        pre.wf(),
        pre.next_job < u64::MAX,
        post.workers == pre.workers,
        post.completed == pre.completed,
        post.pending == pre.pending.push(pre.next_job),
        post.next_job == pre.next_job + 1,
    ensures
        post.wf(),
{
    assert forall|i: int, j: int|
        0 <= i < j < post.pending.len() implies post.pending[i] != post.pending[j] by {
        if j < pre.pending.len() {
        } else {
            assert(post.pending[j] == pre.next_job);
            assert(pre.pending[i] < pre.next_job);
        }
    }
    assert forall|i: int, w: int|
        0 <= i < post.pending.len() && 0 <= w < post.workers.len()
            && post.workers[w] is Busy implies post.pending[i] != job_of(post.workers[w]) by {
        if i < pre.pending.len() {
        } else {
            assert(job_of(pre.workers[w]) < pre.next_job);
        }
    }
    assert forall|i: int, j: int|
        0 <= i < post.pending.len() && 0 <= j < post.completed.len() implies post.pending[i]
            != post.completed[j] by {
        if i < pre.pending.len() {
        } else {
            assert(pre.completed[j] < pre.next_job);
        }
    }
}

/// Handing the front job to an idle worker preserves the invariant: the job
/// leaves the queue as it becomes the worker's, so it is still held exactly
/// once.
pub proof fn lemma_wf_take_job(pre: PoolModel, post: PoolModel, w: int)
    requires
        pre.wf(),
        0 <= w < pre.workers.len(),
        pre.workers[w] is Idle,
        pre.pending.len() > 0,
        post.pending == pre.pending.drop_first(),
        post.workers == pre.workers.update(w, WorkerState::Busy(pre.pending[0])),
        post.completed == pre.completed,
        post.next_job == pre.next_job,
    ensures
        post.wf(),
{
    let taken = pre.pending[0];
    assert(forall|i: int|
        0 <= i < post.pending.len() ==> post.pending[i] == pre.pending[i + 1]);
    assert forall|w1: int, w2: int|
        0 <= w1 < w2 < post.workers.len() && post.workers[w1] is Busy
            && post.workers[w2] is Busy implies job_of(post.workers[w1]) != job_of(
        post.workers[w2],
    ) by {
        if w1 == w {
            assert(pre.pending[0] != job_of(pre.workers[w2]));
        } else if w2 == w {
            assert(pre.pending[0] != job_of(pre.workers[w1]));
        }
    }
    assert forall|i: int, v: int|
        0 <= i < post.pending.len() && 0 <= v < post.workers.len()
            && post.workers[v] is Busy implies post.pending[i] != job_of(post.workers[v]) by {
        if v == w {
            assert(pre.pending[i + 1] != pre.pending[0]);
        } else {
            assert(pre.pending[i + 1] != job_of(pre.workers[v]));
        }
    }
    assert forall|v: int, j: int|
        0 <= v < post.workers.len() && post.workers[v] is Busy && 0 <= j
            < post.completed.len() implies job_of(post.workers[v]) != post.completed[j] by {
        if v == w {
            assert(pre.pending[0] != pre.completed[j]);
        }
    }
}

/// Stopping an idle worker preserves the invariant: no job changes hands.
pub proof fn lemma_wf_take_stop(pre: PoolModel, post: PoolModel, w: int)
    requires
        pre.wf(),
        0 <= w < pre.workers.len(),
        post.workers == pre.workers.update(w, WorkerState::Stopped),
        post.pending == pre.pending,
        post.completed == pre.completed,
        post.next_job == pre.next_job,
    ensures
        post.wf(),
{
}

/// Recording a finished job preserves the invariant: the job leaves the
/// worker's hands as it enters the completed record, where it was not yet.
pub proof fn lemma_wf_finish(pre: PoolModel, post: PoolModel, w: int)
    requires
        pre.wf(),
        0 <= w < pre.workers.len(),
        pre.workers[w] is Busy,
        post.workers == pre.workers.update(w, WorkerState::Idle),
        post.completed == pre.completed.push(job_of(pre.workers[w])),
        post.pending == pre.pending,
        post.next_job == pre.next_job,
    ensures
        post.wf(),
{
    let done = job_of(pre.workers[w]);
    assert forall|i: int, j: int|
        0 <= i < j < post.completed.len() implies post.completed[i] != post.completed[j] by {
        if j == pre.completed.len() {
            assert(done != pre.completed[i]);
        }
    }
    assert forall|i: int, j: int|
        0 <= i < post.pending.len() && 0 <= j < post.completed.len() implies post.pending[i]
            != post.completed[j] by {
        if j == pre.completed.len() {
            assert(pre.pending[i] != job_of(pre.workers[w]));
        }
    }
    assert forall|v: int, j: int|
        0 <= v < post.workers.len() && post.workers[v] is Busy && 0 <= j
            < post.completed.len() implies job_of(post.workers[v]) != post.completed[j] by {
        if j == pre.completed.len() {
            assert(v != w);
            assert(job_of(pre.workers[v]) != job_of(pre.workers[w]));
        }
    }
}

/// The pool: a fixed set of workers, the queue of job ids not yet handed
/// out, the record of finished jobs, the id counter, and whether the
/// producer side is still open.
pub struct Pool {
    workers: Vec<WorkerState>,
    pending: Vec<u64>,
    completed: Vec<u64>,
    next_job: u64,
    accepting: bool,
}

impl View for Pool {
    type V = PoolModel;

    closed spec fn view(&self) -> PoolModel {
        PoolModel {
            workers: self.workers@,
            pending: self.pending@,
            completed: self.completed@,
            next_job: self.next_job,
            accepting: self.accepting,
        }
    }
}

impl Pool {
    /// A fresh pool: `size` idle workers, an empty open queue.
    pub fn new(size: usize) -> (p: Pool)
        requires
            size >= 1,
        ensures
            p@.wf(),
            p@.workers.len() == size,
            forall|w: int| 0 <= w < size ==> p@.workers[w] is Idle,
            p@.pending.len() == 0,
            p@.completed.len() == 0,
            p@.next_job == 0,
            p@.accepting,
    {
        let mut workers: Vec<WorkerState> = Vec::new();
        let mut i: usize = 0;
        while i < size
            invariant
                i <= size,
                workers@.len() == i,
                forall|w: int| 0 <= w < i ==> workers@[w] is Idle,
            decreases size - i,
        {
            workers.push(WorkerState::Idle);
            i = i + 1;
        }
        Pool { workers, pending: Vec::new(), completed: Vec::new(), next_job: 0, accepting: true }
    }

    /// The configured pool size.
    pub fn worker_count(&self) -> (r: usize)
        ensures
            r == self@.workers.len(),
    {
        self.workers.len()
    }

    /// Whether the producer side is still open.
    pub fn is_accepting(&self) -> (r: bool)
        ensures
            r == self@.accepting,
    {
        self.accepting
    }

    /// How many jobs wait in the queue.
    pub fn pending_count(&self) -> (r: usize)
        ensures
            r == self@.pending.len(),
    {
        self.pending.len()
    }

    /// How many jobs have run to completion.
    pub fn completed_count(&self) -> (r: usize)
        ensures
            r == self@.completed.len(),
    {
        self.completed.len()
    }

    /// What worker `w` is doing.
    pub fn worker_state(&self, w: usize) -> (r: WorkerState)
        requires
            w < self@.workers.len(),
        ensures
            r == self@.workers[w as int],
    {
        self.workers[w]
    }

    /// The id of the job at queue position `i`.
    pub fn pending_at(&self, i: usize) -> (r: u64)
        requires
            i < self@.pending.len(),
        ensures
            r == self@.pending[i as int],
    {
        self.pending[i]
    }

    /// The id of the `i`-th completed job.
    pub fn completed_at(&self, i: usize) -> (r: u64)
        requires
            i < self@.completed.len(),
        ensures
            r == self@.completed[i as int],
    {
        self.completed[i]
    }

    /// The id the next accepted submission will get.
    pub fn next_job_id(&self) -> (r: u64)
        ensures
            r == self@.next_job,
    {
        self.next_job
    }

    /// Offers a job to the pool. While the queue is open the job is
    /// accepted, given a fresh id and queued; once the queue has closed the
    /// submission is refused and the pool is untouched, so no job is ever
    /// silently lost.
    pub fn submit(&mut self) -> (r: Result<u64, SubmitError>)
        requires
            old(self)@.wf(),
            old(self)@.next_job < u64::MAX,
        ensures
            final(self)@.wf(),
            final(self)@.workers == old(self)@.workers,
            final(self)@.completed == old(self)@.completed,
            final(self)@.accepting == old(self)@.accepting,
            old(self)@.accepting ==> (r matches Ok(id) && id == old(self)@.next_job
                && final(self)@.pending == old(self)@.pending.push(id) && final(self)@.next_job == old(
                self,
            )@.next_job + 1),
            !old(self)@.accepting ==> r == Result::<u64, SubmitError>::Err(
                SubmitError::QueueClosed,
            ) && final(self)@ == old(self)@,
    {
        if self.accepting {
            let id = self.next_job;
            self.pending.push(id);
            self.next_job = self.next_job + 1;
            proof {
                lemma_wf_submit(old(self)@, self@);
            }
            Ok(id)
        } else {
            proof {
                lemma_wf_same_parts(old(self)@, self@);
            }
            Err(SubmitError::QueueClosed)
        }
    }

    /// Releases the producer side: the queue closes, once and for all, and
    /// every later submission is refused. Queued jobs stay queued.
    pub fn close(&mut self)
        requires
            old(self)@.wf(),
            old(self)@.accepting,
        ensures
            final(self)@.wf(),
            !final(self)@.accepting,
            final(self)@.workers == old(self)@.workers,
            final(self)@.pending == old(self)@.pending,
            final(self)@.completed == old(self)@.completed,
            final(self)@.next_job == old(self)@.next_job,
    {
        self.accepting = false;
        proof {
            lemma_wf_same_parts(old(self)@, self@);
        }
    }

    /// Worker `w` asks for work. The front job, if any, is handed to `w`
    /// alone and leaves the queue. An empty open queue tells the caller to
    /// block and ask again; an empty closed queue stops the worker for
    /// good — it never blocks waiting on a queue that can produce nothing.
    pub fn take(&mut self, w: usize) -> (r: TakeOutcome)
        requires
            old(self)@.wf(),
            w < old(self)@.workers.len(),
            old(self)@.workers[w as int] is Idle,
        ensures
            final(self)@.wf(),
            final(self)@.completed == old(self)@.completed,
            final(self)@.next_job == old(self)@.next_job,
            final(self)@.accepting == old(self)@.accepting,
            old(self)@.pending.len() > 0 ==> r == TakeOutcome::Job(old(self)@.pending[0])
                && final(self)@.pending == old(self)@.pending.drop_first() && final(self)@.workers == old(
                self,
            )@.workers.update(w as int, WorkerState::Busy(old(self)@.pending[0])),
            old(self)@.pending.len() == 0 && old(self)@.accepting ==> r == TakeOutcome::WouldBlock
                && final(self)@ == old(self)@,
            old(self)@.pending.len() == 0 && !old(self)@.accepting ==> r == TakeOutcome::Closed
                && final(self)@.pending == old(self)@.pending && final(self)@.workers == old(
                self,
            )@.workers.update(w as int, WorkerState::Stopped),
    {
        if self.pending.len() > 0 {
            let id = self.pending.remove(0);
            self.workers.set(w, WorkerState::Busy(id));
            proof {
                assert(self@.pending =~= old(self)@.pending.drop_first());
                lemma_wf_take_job(old(self)@, self@, w as int);
            }
            TakeOutcome::Job(id)
        } else if self.accepting {
            proof {
                lemma_wf_same_parts(old(self)@, self@);
            }
            TakeOutcome::WouldBlock
        } else {
            self.workers.set(w, WorkerState::Stopped);
            proof {
                lemma_wf_take_stop(old(self)@, self@, w as int);
            }
            TakeOutcome::Closed
        }
    }

    /// Worker `w` reports its job done: the worker goes back to waiting and
    /// the job is recorded as completed.
    pub fn finish(&mut self, w: usize)
        requires
            old(self)@.wf(),
            w < old(self)@.workers.len(),
            old(self)@.workers[w as int] is Busy,
        ensures
            final(self)@.wf(),
            final(self)@.workers == old(self)@.workers.update(w as int, WorkerState::Idle),
            final(self)@.completed == old(self)@.completed.push(job_of(old(self)@.workers[w as int])),
            final(self)@.pending == old(self)@.pending,
            final(self)@.next_job == old(self)@.next_job,
            final(self)@.accepting == old(self)@.accepting,
    {
        let st = self.workers[w];
        match st {
            WorkerState::Busy(id) => {
                self.workers.set(w, WorkerState::Idle);
                self.completed.push(id);
                proof {
                    lemma_wf_finish(old(self)@, self@, w as int);
                }
            },
            _ => {},
        }
    }
}

} // verus!
