use vstd::prelude::*;

verus! {

/// The lifecycle of a pool of a fixed number of workers: which workers to
/// create, whether jobs are still accepted, and which workers are still to be
/// joined at shutdown, in ascending order of id.
pub struct PoolPlan {
    size: usize,
    accepting: bool,
    joined: usize,
}

impl PoolPlan {
    pub closed spec fn spec_size(&self) -> nat {
        self.size as nat
    }

    pub closed spec fn is_accepting(&self) -> bool {
        self.accepting
    }

    /// The number of workers joined so far; they are ids `0..joined_count()`.
    pub closed spec fn joined_count(&self) -> nat {
        self.joined as nat
    }

    /// The number of worker threads not yet joined.
    pub open spec fn live_count(&self) -> int {
        self.spec_size() - self.joined_count()
    }

    pub closed spec fn wf(&self) -> bool {
        &&& self.size > 0
        &&& self.joined <= self.size
        &&& self.accepting ==> self.joined == 0
    }

    /// A plan for `size` workers, accepting jobs, none joined. There is no
    /// pool of zero workers: `size == 0` gives `None`.
    pub fn new(size: usize) -> (r: Option<PoolPlan>)
        ensures
            size == 0 <==> r is None,
            r matches Some(p) ==> {
                &&& p.wf()
                &&& p.spec_size() == size
                &&& p.is_accepting()
                &&& p.joined_count() == 0
            },
    {
        if size == 0 {
            None
        } else {
            Some(PoolPlan { size, accepting: true, joined: 0 })
        }
    }

    pub fn size(&self) -> (r: usize)
        ensures
            r == self.spec_size(),
    {
        self.size
    }

    pub fn accepting(&self) -> (r: bool)
        ensures
            r == self.is_accepting(),
    {
        self.accepting
    }

    /// The ids of the workers to create, one per worker: `0, 1, ..., size - 1`.
    pub fn worker_ids(&self) -> (ids: Vec<usize>)
        ensures
            ids@.len() == self.spec_size(),
            forall|i: int| 0 <= i < ids@.len() ==> ids@[i] == i,
    {
        let mut ids: Vec<usize> = Vec::with_capacity(self.size);
        let mut i: usize = 0;
        while i < self.size
            invariant
                i <= self.size,
                ids@.len() == i,
                forall|k: int| 0 <= k < ids@.len() ==> ids@[k] == k,
            decreases self.size - i,
        {
            ids.push(i);
            i = i + 1;
        }
        ids
    }

    /// Shutdown begins: no more jobs are accepted. This is the signal the
    /// caller forwards by closing the queue, before any worker is joined.
    pub fn begin_shutdown(&mut self)
        requires
            old(self).wf(),
        ensures
            final(self).wf(),
            !final(self).is_accepting(),
            final(self).spec_size() == old(self).spec_size(),
            final(self).joined_count() == old(self).joined_count(),
    {
        self.accepting = false;
    }

    /// The next worker to join, in ascending order of id, counted as joined
    /// from here on; `None` once every worker has been joined.
    pub fn next_join(&mut self) -> (r: Option<usize>)
        requires
            old(self).wf(),
            !old(self).is_accepting(),
        ensures
            final(self).wf(),
            !final(self).is_accepting(),
            final(self).spec_size() == old(self).spec_size(),
            old(self).live_count() == 0 <==> r is None,
            r is None ==> final(self).joined_count() == old(self).joined_count()
                && final(self).live_count() == 0,
            r matches Some(id) ==> {
                &&& id == old(self).joined_count()
                &&& final(self).joined_count() == old(self).joined_count() + 1
            },
    {
        if self.joined < self.size {
            let id = self.joined;
            self.joined = self.joined + 1;
            Some(id)
        } else {
            None
        }
    }
}

} // verus!
