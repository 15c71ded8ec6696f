use std::collections::VecDeque;
use vstd::prelude::*;
use vstd::string::StringExecFns;

use crate::error::{AppError, AppErrorView, AppResult};

verus! {

/// Admission queue for finished recordings: a FIFO of pending artifacts and a count of
/// running jobs, together never exceeding `max_in_flight`.
#[derive(Debug)]
pub struct SingleFlightQueue {
    max_in_flight: usize,
    in_flight: usize,
    pending: VecDeque<String>,
}

/// Mathematical model of a [`SingleFlightQueue`].
pub struct QueueView {
    pub max_in_flight: nat,
    pub in_flight: nat,
    pub pending: Seq<Seq<char>>,
}

impl QueueView {
    /// The admission bound: running and waiting jobs together stay within the cap.
    pub open spec fn bounded(self) -> bool {
        self.in_flight + self.pending.len() <= self.max_in_flight
    }

    /// A fresh queue with the given cap.
    pub open spec fn empty(max_in_flight: nat) -> QueueView {
        QueueView { max_in_flight, in_flight: 0, pending: Seq::empty() }
    }

    /// Whether one more artifact may be admitted.
    pub open spec fn has_room(self) -> bool {
        self.in_flight + self.pending.len() < self.max_in_flight
    }

    /// The queue after an admitted artifact joined the back of the line.
    pub open spec fn enqueued(self, path: Seq<char>) -> QueueView {
        QueueView { pending: self.pending.push(path), ..self }
    }

    /// Whether a job can be started now.
    pub open spec fn can_start(self) -> bool {
        self.in_flight < self.max_in_flight && self.pending.len() > 0
    }

    /// The queue after its oldest pending artifact became a running job.
    pub open spec fn started(self) -> QueueView {
        QueueView {
            in_flight: self.in_flight + 1,
            pending: self.pending.drop_first(),
            ..self
        }
    }

    /// The queue after one completion was recorded; a spurious completion changes nothing.
    pub open spec fn finished(self) -> QueueView {
        QueueView {
            in_flight: if self.in_flight > 0 { (self.in_flight - 1) as nat } else { 0 },
            ..self
        }
    }

    /// The queue after `n` completions were recorded.
    pub open spec fn finished_times(self, n: nat) -> QueueView
        decreases n,
    {
        if n == 0 {
            self
        } else {
            self.finished().finished_times((n - 1) as nat)
        }
    }
}

/// Text of the rejection returned by a full queue.
pub open spec fn queue_full_message() -> Seq<char> {
    "single-flight queue full (max_in_flight=1)"@
}

impl View for SingleFlightQueue {
    type V = QueueView;

    closed spec fn view(&self) -> QueueView {
        QueueView {
            max_in_flight: self.max_in_flight as nat,
            in_flight: self.in_flight as nat,
            pending: self.pending@.map_values(|s: String| s@),
        }
    }
}

impl SingleFlightQueue {
    /// Creates an empty queue admitting at most `max_in_flight` jobs.
    pub fn new(max_in_flight: usize) -> (q: Self)
        ensures
            q@ == QueueView::empty(max_in_flight as nat),
            q@.bounded(),
    {
        let q = Self { max_in_flight, in_flight: 0, pending: VecDeque::new() };
        assert(q.pending@.map_values(|s: String| s@) =~= Seq::<Seq<char>>::empty());
        q
    }

    /// Admits `path` at the back of the line, or rejects it when the queue is at its cap.
    pub fn enqueue(&mut self, path: String) -> (r: AppResult<()>)
        ensures
            old(self)@.bounded() ==> final(self)@.bounded(),
            old(self)@.has_room() ==> r is Ok && final(self)@ == old(self)@.enqueued(path@),
            !old(self)@.has_room() ==> final(self)@ == old(self)@ && (r matches Err(e) && e@
                == AppErrorView::Controller(queue_full_message())),
    {
        if self.in_flight >= self.max_in_flight || self.pending.len() >= self.max_in_flight
            - self.in_flight {
            return Err(
                AppError::Controller(String::from_str("single-flight queue full (max_in_flight=1)")),
            );
        }
        let ghost before = self.pending@;
        self.pending.push_back(path);
        assert(self.pending@.map_values(|s: String| s@) =~= before.map_values(|s: String| s@).push(
            path@,
        ));
        Ok(())
    }

    /// Starts the oldest pending artifact if the cap allows, and hands it out.
    pub fn start_next(&mut self) -> (r: Option<String>)
        ensures
            old(self)@.bounded() ==> final(self)@.bounded(),
            old(self)@.can_start() ==> final(self)@ == old(self)@.started() && (r matches Some(p)
                && p@ == old(self)@.pending[0]),
            !old(self)@.can_start() ==> r is None && final(self)@ == old(self)@,
    {
        if self.in_flight >= self.max_in_flight {
            return None;
        }
        let ghost before = self.pending@;
        let next = self.pending.pop_front();
        if next.is_some() {
            self.in_flight += 1;
            assert(self.pending@.map_values(|s: String| s@) =~= before.map_values(
                |s: String| s@,
            ).drop_first());
        }
        next
    }

    /// Records one completion; with nothing running this is a no-op.
    pub fn mark_finished(&mut self)
        ensures
            old(self)@.bounded() ==> final(self)@.bounded(),
            final(self)@ == old(self)@.finished(),
    {
        if self.in_flight > 0 {
            self.in_flight -= 1;
        }
    }

    /// Number of jobs currently running.
    pub fn in_flight(&self) -> (n: usize)
        ensures
            n == self@.in_flight,
    {
        self.in_flight
    }

    /// Number of artifacts waiting to be started.
    pub fn pending_len(&self) -> (n: usize)
        ensures
            n == self@.pending.len(),
    {
        self.pending.len()
    }
}

/// Every operation keeps the admission bound.
pub proof fn lemma_queue_operations_keep_bound(q: QueueView, path: Seq<char>)
    requires
        q.bounded(),
    ensures
        QueueView::empty(q.max_in_flight).bounded(),
        q.has_room() ==> q.enqueued(path).bounded(),
        q.can_start() ==> q.started().bounded(),
        q.finished().bounded(),
{
}

/// Recording a completion on a queue with nothing running changes nothing.
pub proof fn lemma_mark_finished_on_idle_queue_is_noop(q: QueueView)
    requires
        q.in_flight == 0,
    ensures
        q.finished() == q,
{
}

/// After one start on a bounded queue of cap one, any positive number of completions leaves
/// nothing running; in general `n` completions leave `in_flight - n`, saturating at zero.
pub proof fn lemma_repeated_mark_finished(q: QueueView, n: nat)
    ensures
        q.finished_times(n).in_flight == (if q.in_flight >= n { (q.in_flight - n) as nat } else { 0 }),
        q.finished_times(n).pending == q.pending,
        q.finished_times(n).max_in_flight == q.max_in_flight,
    decreases n,
{
    if n > 0 {
        lemma_repeated_mark_finished(q.finished(), (n - 1) as nat);
    }
}

/// One start followed by any number `n >= 1` of completions leaves no job in flight,
/// provided nothing was running before the start.
pub proof fn lemma_start_then_finish_n_times(q: QueueView, n: nat)
    requires
        q.in_flight == 0,
        q.can_start(),
        n >= 1,
    ensures
        q.started().finished_times(n).in_flight == 0,
{
    lemma_repeated_mark_finished(q.started(), n);
}

/// With a cap of one: while a job is pending or running, admission fails; once the running
/// job is marked finished, admission succeeds again.
pub proof fn lemma_capacity_one_busy_then_free(q: QueueView, first: Seq<char>)
    requires
        q == QueueView::empty(1),
    ensures
        q.has_room(),
        !q.enqueued(first).has_room(),
        q.enqueued(first).can_start(),
        !q.enqueued(first).started().has_room(),
        q.enqueued(first).started().finished().has_room(),
{
    assert(q.enqueued(first).pending.len() == 1);
    assert(q.enqueued(first).started().pending =~= Seq::<Seq<char>>::empty());
}

/// The queue is first in, first out: an admitted artifact waits behind all that waited
/// before it, and the one started is always the one that has waited longest.
pub proof fn lemma_queue_is_fifo(q: QueueView, path: Seq<char>)
    ensures
        q.enqueued(path).pending.len() == q.pending.len() + 1,
        q.enqueued(path).pending.last() == path,
        forall|i: int| 0 <= i < q.pending.len() ==> q.enqueued(path).pending[i] == q.pending[i],
        forall|i: int| 0 <= i < q.pending.len() - 1 ==> q.started().pending[i] == q.pending[i + 1],
{
}

} // verus!
