//! The queue in front of the one renderer: jobs are taken in the order they
//! were submitted, and a job is taken only while no other is being rendered.
//!
//! Each job gets a ticket when it is submitted. The render context takes the
//! next job with `begin` and gives its ticket back with `finish` once the
//! result has been handed on.
use vstd::prelude::*;

verus! {

/// Jobs waiting for the renderer, and the ticket of the one it is rendering.
pub struct RenderQueue<J> {
    pending: Vec<(u64, J)>,
    running: Option<u64>,
    next_ticket: u64,
}

/// `q1` is `q0` after a `begin` that returned `r`: with the renderer idle and
/// a job waiting, the oldest job leaves the queue and is being rendered; else
/// nothing changes and no job is handed out.
pub open spec fn began<J>(q0: RenderQueue<J>, q1: RenderQueue<J>, r: Option<(u64, J)>) -> bool {
    if q0.running() is None && q0.jobs().len() > 0 {
        &&& r == Some(q0.jobs()[0])
        &&& q1.jobs() == q0.jobs().drop_first()
        &&& q1.running() == Some(q0.jobs()[0].0)
        &&& q1.issued() == q0.issued()
    } else {
        &&& r is None
        &&& q1.jobs() == q0.jobs()
        &&& q1.running() == q0.running()
        &&& q1.issued() == q0.issued()
    }
}

/// `q1` is `q0` after a `finish` of ticket `t` that returned `done`: only the
/// job being rendered can finish, and then the renderer is idle.
pub open spec fn finished<J>(q0: RenderQueue<J>, q1: RenderQueue<J>, t: u64, done: bool) -> bool {
    &&& done == (q0.running() == Some(t))
    &&& q1.running() == (if done {
        None
    } else {
        q0.running()
    })
    &&& q1.jobs() == q0.jobs()
    &&& q1.issued() == q0.issued()
}

impl<J> RenderQueue<J> {
    /// The waiting jobs with their tickets, oldest first.
    pub closed spec fn jobs(&self) -> Seq<(u64, J)> {
        self.pending@
    }

    /// The ticket of the job being rendered, if any.
    pub closed spec fn running(&self) -> Option<u64> {
        self.running
    }

    /// How many tickets have been handed out; the next one is this number.
    pub closed spec fn issued(&self) -> u64 {
        self.next_ticket
    }

    /// Tickets grow in the order of submission, every ticket has been issued,
    /// and the job being rendered was submitted before every waiting one.
    pub open spec fn wf(&self) -> bool {
        &&& forall|i: int, j: int|
            0 <= i < j < self.jobs().len() ==> #[trigger] self.jobs()[i].0
                < #[trigger] self.jobs()[j].0
        &&& forall|i: int| 0 <= i < self.jobs().len() ==> #[trigger] self.jobs()[i].0 < self.issued()
        &&& match self.running() {
            Some(t) => t < self.issued() && forall|i: int|
                0 <= i < self.jobs().len() ==> t < #[trigger] self.jobs()[i].0,
            None => true,
        }
    }

    /// An empty queue with the renderer idle.
    pub fn new() -> (r: RenderQueue<J>)
        ensures
            r.wf(),
            r.jobs() == Seq::<(u64, J)>::empty(),
            r.running() is None,
            r.issued() == 0,
    {
        RenderQueue { pending: Vec::new(), running: None, next_ticket: 0 }
    }

    /// Puts a job at the end of the queue and returns its ticket. Only when
    /// every ticket has been used up is the job refused, with `None`.
    pub fn submit(&mut self, job: J) -> (t: Option<u64>)
        requires
            old(self).wf(),
        ensures
            final(self).wf(),
            old(self).issued() < u64::MAX ==> t == Some(old(self).issued()) && final(self).jobs()
                == old(self).jobs().push((old(self).issued(), job)) && final(self).issued()
                == old(self).issued() + 1,
            old(self).issued() == u64::MAX ==> t is None && final(self).jobs() == old(self).jobs()
                && final(self).issued() == old(self).issued(),
            final(self).running() == old(self).running(),
    {
        if self.next_ticket == u64::MAX {
            return None;
        }
        let t = self.next_ticket;
        let ghost before = self.jobs();
        self.pending.push((t, job));
        self.next_ticket = t + 1;
        assert forall|i: int| 0 <= i < self.jobs().len() implies #[trigger] self.jobs()[i].0
            < self.next_ticket by {
            if i < before.len() {
                assert(self.jobs()[i] == before[i]);
            }
        }
        assert forall|i: int, j: int| 0 <= i < j < self.jobs().len() implies #[trigger] self.jobs()[i].0
            < #[trigger] self.jobs()[j].0 by {
            assert(self.jobs()[i] == before[i]);
            if j < before.len() {
                assert(self.jobs()[j] == before[j]);
            }
        }
        Some(t)
    }

    /// Hands out the oldest waiting job, if the renderer is idle.
    pub fn begin(&mut self) -> (r: Option<(u64, J)>)
        requires
            old(self).wf(),
        ensures
            final(self).wf(),
            began(*old(self), *final(self), r),
    {
        if self.running.is_some() || self.pending.len() == 0 {
            return None;
        }
        let ghost before = self.jobs();
        let job = self.pending.remove(0);
        assert(self.pending@ =~= before.drop_first());
        self.running = Some(job.0);
        assert forall|i: int| 0 <= i < self.jobs().len() implies job.0 < #[trigger] self.jobs()[i].0 by {
            assert(self.jobs()[i] == before[i + 1]);
        }
        assert forall|i: int, j: int| 0 <= i < j < self.jobs().len() implies #[trigger] self.jobs()[i].0
            < #[trigger] self.jobs()[j].0 by {
            assert(self.jobs()[i] == before[i + 1]);
            assert(self.jobs()[j] == before[j + 1]);
        }
        Some(job)
    }

    /// Marks the job with ticket `t` as done, if it is the one being rendered.
    pub fn finish(&mut self, t: u64) -> (done: bool)
        requires
            old(self).wf(),
        ensures
            final(self).wf(),
            finished(*old(self), *final(self), t, done),
    {
        if self.running == Some(t) {
            let ghost before = self.jobs();
            self.running = None;
            assert(self.jobs() == before);
            true
        } else {
            false
        }
    }

    /// Whether a job is being rendered.
    pub fn is_busy(&self) -> (r: bool)
        ensures
            r == self.running() is Some,
    {
        self.running.is_some()
    }

    /// How many jobs are waiting.
    pub fn waiting(&self) -> (r: usize)
        ensures
            r == self.jobs().len(),
    {
        self.pending.len()
    }
}

/// While one job is being rendered no other is handed out: after a `begin`
/// that handed out a job, a second `begin` hands out none.
pub proof fn lemma_one_render_at_a_time<J>(
    q0: RenderQueue<J>,
    q1: RenderQueue<J>,
    q2: RenderQueue<J>,
    r1: Option<(u64, J)>,
    r2: Option<(u64, J)>,
)
    requires
        began(q0, q1, r1),
        r1 is Some,
        began(q1, q2, r2),
    ensures
        r2 is None,
{
}

/// Jobs are taken in the order of submission: the job handed out was
/// submitted before every job still waiting.
pub proof fn lemma_first_in_first_out<J>(q0: RenderQueue<J>, q1: RenderQueue<J>, t: u64, job: J)
    requires
        q0.wf(),
        began(q0, q1, Some((t, job))),
    ensures
        forall|i: int| 0 <= i < q1.jobs().len() ==> t < #[trigger] q1.jobs()[i].0,
{
    assert forall|i: int| 0 <= i < q1.jobs().len() implies t < #[trigger] q1.jobs()[i].0 by {
        assert(q1.jobs()[i] == q0.jobs()[i + 1]);
    }
}

/// A job is finished once: finishing its ticket a second time does nothing,
/// and its ticket is not among the waiting ones.
pub proof fn lemma_finished_once<J>(
    q0: RenderQueue<J>,
    q1: RenderQueue<J>,
    q2: RenderQueue<J>,
    t: u64,
    d2: bool,
)
    requires
        q0.wf(),
        finished(q0, q1, t, true),
        finished(q1, q2, t, d2),
    ensures
        !d2,
        forall|i: int| 0 <= i < q1.jobs().len() ==> #[trigger] q1.jobs()[i].0 != t,
{
    assert forall|i: int| 0 <= i < q1.jobs().len() implies #[trigger] q1.jobs()[i].0 != t by {
        assert(q0.jobs()[i].0 > t);
    }
}

} // verus!
