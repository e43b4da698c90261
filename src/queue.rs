use std::collections::VecDeque;
use vstd::prelude::*;

verus! {

/// What a receive on the queue answers.
pub enum Recv<J> {
    /// The oldest pending job, now owned by the receiver.
    Job(J),
    /// Nothing is pending but producers may still submit: wait and retry.
    Empty,
    /// Nothing is pending and no producer remains: the consumer stops.
    Closed,
}

/// An unbounded, closable first-in first-out queue of jobs.
///
/// Besides the pending jobs it keeps, as ghost state, every job ever accepted
/// and every job ever handed out, in order. Its invariant is that the jobs
/// handed out followed by the pending ones are exactly the jobs accepted: no
/// job is lost, duplicated or reordered.
pub struct JobQueue<J> {
    items: VecDeque<J>,
    open: bool,
    accepted: Ghost<Seq<J>>,
    handed_out: Ghost<Seq<J>>,
}

impl<J> JobQueue<J> {
    /// The jobs waiting to be received, oldest first.
    pub closed spec fn pending(&self) -> Seq<J> {
        self.items@
    }

    /// Whether producers may still submit.
    pub closed spec fn is_open(&self) -> bool {
        self.open
    }

    /// Every job the queue has accepted, in order of submission.
    pub closed spec fn submitted(&self) -> Seq<J> {
        self.accepted@
    }

    /// Every job the queue has handed to a receiver, in order of delivery.
    pub closed spec fn delivered(&self) -> Seq<J> {
        self.handed_out@
    }

    pub closed spec fn wf(&self) -> bool {
        self.accepted@ == self.handed_out@ + self.items@
    }

    /// An open queue with nothing submitted.
    pub fn new() -> (q: Self)
        ensures
            q.wf(),
            q.is_open(),
            q.pending() == Seq::<J>::empty(),
            q.submitted() == Seq::<J>::empty(),
            q.delivered() == Seq::<J>::empty(),
    {
        let q = JobQueue {
            items: VecDeque::new(),
            open: true,
            accepted: Ghost(Seq::empty()),
            handed_out: Ghost(Seq::empty()),
        };
        proof {
            assert(q.handed_out@ + q.items@ =~= q.accepted@);
        }
        q
    }

    /// Whether producers may still submit.
    pub fn accepts(&self) -> (r: bool)
        ensures
            r == self.is_open(),
    {
        self.open
    }

    /// The number of jobs waiting to be received.
    pub fn len(&self) -> (r: usize)
        ensures
            r == self.pending().len(),
    {
        self.items.len()
    }

    /// Enqueues `job` behind every pending job while the queue is open.
    /// A closed queue refuses it and hands it back unchanged.
    pub fn submit(&mut self, job: J) -> (r: Result<(), J>)
        requires
            old(self).wf(),
        ensures
            final(self).wf(),
            final(self).is_open() == old(self).is_open(),
            final(self).delivered() == old(self).delivered(),
            old(self).is_open() ==> {
                &&& r is Ok
                &&& final(self).pending() == old(self).pending().push(job)
                &&& final(self).submitted() == old(self).submitted().push(job)
            },
            !old(self).is_open() ==> {
                &&& r == Err::<(), J>(job)
                &&& final(self).pending() == old(self).pending()
                &&& final(self).submitted() == old(self).submitted()
            },
    {
        if self.open {
            proof {
                self.accepted@ = self.accepted@.push(job);
                assert(self.handed_out@ + self.items@.push(job) =~= self.accepted@);
            }
            self.items.push_back(job);
            Ok(())
        } else {
            Err(job)
        }
    }

    /// Takes the oldest pending job. With none pending, answers `Empty` while
    /// the queue is open and `Closed` once it is closed, so jobs submitted
    /// before closing are still all delivered.
    pub fn receive(&mut self) -> (r: Recv<J>)
        requires
            old(self).wf(),
        ensures
            final(self).wf(),
            final(self).is_open() == old(self).is_open(),
            final(self).submitted() == old(self).submitted(),
            old(self).pending().len() > 0 ==> {
                &&& r == Recv::Job(old(self).pending()[0])
                &&& final(self).pending() == old(self).pending().drop_first()
                &&& final(self).delivered() == old(self).delivered().push(old(self).pending()[0])
            },
            old(self).pending().len() == 0 ==> {
                &&& r == (if old(self).is_open() { Recv::<J>::Empty } else { Recv::<J>::Closed })
                &&& final(self).pending() == old(self).pending()
                &&& final(self).delivered() == old(self).delivered()
            },
    {
        match self.items.pop_front() {
            Some(job) => {
                proof {
                    let old_items = self.items@;
                    assert(old(self).items@ == seq![job] + old_items);
                    self.handed_out@ = self.handed_out@.push(job);
                    assert(self.handed_out@ + self.items@ =~= self.accepted@);
                }
                Recv::Job(job)
            },
            None => {
                if self.open {
                    Recv::Empty
                } else {
                    Recv::Closed
                }
            },
        }
    }

    /// No job is lost, duplicated or reordered: every accepted job is either
    /// delivered, at the same position among deliveries as among submissions,
    /// or still pending, right behind the delivered ones, and never both.
    /// Every operation keeps this, so it holds across any interleaving of
    /// producers and consumers that take turns on the queue.
    pub proof fn lemma_each_job_once(&self)
        requires
            self.wf(),
        ensures
            self.submitted().len() == self.delivered().len() + self.pending().len(),
            forall|i: int|
                0 <= i < self.delivered().len() ==> self.delivered()[i] == self.submitted()[i],
            forall|i: int|
                0 <= i < self.pending().len() ==> self.pending()[i] == self.submitted()[self.delivered().len() + i],
    {
        assert forall|i: int| 0 <= i < self.pending().len() implies self.pending()[i]
            == self.submitted()[self.delivered().len() + i] by {
            assert((self.handed_out@ + self.items@)[self.handed_out@.len() + i] == self.items@[i]);
        }
    }

    /// Once nothing is pending, every job ever submitted has been delivered,
    /// each exactly once and in order of submission.
    pub proof fn lemma_drained_delivers_all(&self)
        requires
            self.wf(),
            self.pending().len() == 0,
        ensures
            self.delivered() == self.submitted(),
    {
        assert(self.handed_out@ + self.items@ =~= self.handed_out@);
    }

    /// Stops accepting submissions. Pending jobs stay and are still delivered.
    pub fn close(&mut self)
        requires
            old(self).wf(),
        ensures
            final(self).wf(),
            !final(self).is_open(),
            final(self).pending() == old(self).pending(),
            final(self).submitted() == old(self).submitted(),
            final(self).delivered() == old(self).delivered(),
    {
        self.open = false;
    }
}

} // verus!
