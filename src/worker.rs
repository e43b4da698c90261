use crate::queue::{JobQueue, Recv};
use vstd::prelude::*;

verus! {

/// Where a worker stands in its loop.
#[derive(Clone, Copy, Debug, PartialEq, Eq, Structural)]
pub enum WorkerState {
    /// Waiting for a job or for the queue to close.
    Idle,
    /// Executing the job it last received.
    Running,
    /// Its loop has ended; no transition leaves this state.
    Terminated,
}

/// What the thread behind a worker does next.
pub enum Action<J> {
    /// Release the queue, then run this job to completion.
    Run(J),
    /// Block until the queue changes, then poll again.
    Wait,
    /// Leave the loop: the queue is closed and drained.
    Exit,
}

/// A worker's identity and the state of its loop.
pub struct Worker {
    id: usize,
    state: WorkerState,
}

impl Worker {
    pub closed spec fn spec_id(&self) -> usize {
        self.id
    }

    pub closed spec fn spec_state(&self) -> WorkerState {
        self.state
    }

    /// A worker with the given id, idle.
    pub fn new(id: usize) -> (w: Worker)
        ensures
            w.spec_id() == id,
            w.spec_state() == WorkerState::Idle,
    {
        Worker { id, state: WorkerState::Idle }
    }

    pub fn id(&self) -> (r: usize)
        ensures
            r == self.spec_id(),
    {
        self.id
    }

    pub fn state(&self) -> (r: WorkerState)
        ensures
            r == self.spec_state(),
    {
        self.state
    }

    pub fn is_terminated(&self) -> (r: bool)
        ensures
            r == (self.spec_state() == WorkerState::Terminated),
    {
        self.state == WorkerState::Terminated
    }

    /// The step an idle worker takes on what the queue answered: a job makes
    /// it run that job, an empty open queue makes it wait, and a closed,
    /// drained queue ends its loop.
    pub fn on_receive<J>(&mut self, r: Recv<J>) -> (a: Action<J>)
        requires
            old(self).spec_state() == WorkerState::Idle,
        ensures
            final(self).spec_id() == old(self).spec_id(),
            match r {
                Recv::Job(j) => a == Action::Run(j) && final(self).spec_state() == WorkerState::Running,
                Recv::Empty => a == Action::<J>::Wait && final(self).spec_state() == WorkerState::Idle,
                Recv::Closed => a == Action::<J>::Exit && final(self).spec_state()
                    == WorkerState::Terminated,
            },
    {
        match r {
            Recv::Job(j) => {
                self.state = WorkerState::Running;
                Action::Run(j)
            },
            Recv::Empty => Action::Wait,
            Recv::Closed => {
                self.state = WorkerState::Terminated;
                Action::Exit
            },
        }
    }

    /// The critical section of a worker's loop: one receive on the queue and
    /// the step taken on its answer. The job, if any, is run after the caller
    /// releases the queue, so other workers are never held up by it.
    pub fn poll<J>(&mut self, q: &mut JobQueue<J>) -> (a: Action<J>)
        requires
            old(self).spec_state() == WorkerState::Idle,
            old(q).wf(),
        ensures
            final(q).wf(),
            final(q).is_open() == old(q).is_open(),
            final(q).submitted() == old(q).submitted(),
            final(self).spec_id() == old(self).spec_id(),
            old(q).pending().len() > 0 ==> {
                &&& a == Action::Run(old(q).pending()[0])
                &&& final(self).spec_state() == WorkerState::Running
                &&& final(q).pending() == old(q).pending().drop_first()
                &&& final(q).delivered() == old(q).delivered().push(old(q).pending()[0])
            },
            old(q).pending().len() == 0 ==> {
                &&& final(q).pending() == old(q).pending()
                &&& final(q).delivered() == old(q).delivered()
                &&& old(q).is_open() ==> a == Action::<J>::Wait && final(self).spec_state()
                    == WorkerState::Idle
                &&& !old(q).is_open() ==> a == Action::<J>::Exit && final(self).spec_state()
                    == WorkerState::Terminated
            },
    {
        let r = q.receive();
        self.on_receive(r)
    }

    /// The job that was running has finished, whether normally or not; the
    /// worker goes back to waiting.
    pub fn on_job_done(&mut self)
        requires
            old(self).spec_state() == WorkerState::Running,
        ensures
            final(self).spec_id() == old(self).spec_id(),
            final(self).spec_state() == WorkerState::Idle,
    {
        self.state = WorkerState::Idle;
    }
}

} // verus!
