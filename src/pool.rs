use vstd::prelude::*;

use crate::worker::Worker;

verus! {

/// Reasons for which a pool cannot be built.
#[derive(Debug, Clone, Copy, PartialEq, Eq, Structural)]
pub enum ThreadPoolError {
    /// A pool was requested with no workers at all.
    ZeroThreads,
}

impl ThreadPoolError {
    /// A short text describing the error.
    pub fn message(&self) -> (r: &'static str)
        ensures
            r@ == "Trying to create zero threads."@,
    {
        match self {
            ThreadPoolError::ZeroThreads => "Trying to create zero threads.",
        }
    }
}

/// A fixed set of workers fed through one job queue.
///
/// `S` is the sending end of the queue, `H` the handle of a worker's thread.
/// The sender is present while the pool accepts jobs and is taken exactly once
/// when the pool shuts down; each worker's handle is taken exactly once to be
/// joined.
pub struct ThreadPool<S, H> {
    workers: Vec<Worker<H>>,
    sender: Option<S>,
}

/// The `(id, handle)` pairs of the workers whose handle has not been taken yet,
/// in the order of the workers.
pub open spec fn pending_joins<H>(ws: Seq<Worker<H>>) -> Seq<(usize, H)>
    decreases ws.len(),
{
    if ws.len() == 0 {
        seq![]
    } else {
        let rest = pending_joins(ws.drop_last());
        match ws.last().thread() {
            Some(h) => rest.push((ws.last().id(), h)),
            None => rest,
        }
    }
}

impl<S, H> ThreadPool<S, H> {
    /// The workers, in the order in which they were created.
    pub closed spec fn workers(&self) -> Seq<Worker<H>> {
        self.workers@
    }

    /// The sending end of the queue, `None` once the pool has been shut down.
    pub closed spec fn sender(&self) -> Option<S> {
        self.sender
    }

    /// The number of workers.
    pub open spec fn size(&self) -> nat {
        self.workers().len()
    }

    /// The pool accepts jobs.
    pub open spec fn is_active(&self) -> bool {
        self.sender() is Some
    }

    /// At least one worker, worker `i` has id `i`, and while the pool is active
    /// every worker still owns its thread.
    pub open spec fn wf(&self) -> bool {
        &&& self.size() >= 1
        &&& forall|i: int| 0 <= i < self.size() ==> #[trigger] self.workers()[i].id() == i
        &&& self.is_active() ==> forall|i: int|
            0 <= i < self.size() ==> (#[trigger] self.workers()[i]).thread() is Some
    }

    /// Builds an active pool of exactly `size` workers around `sender`, or
    /// fails with `ZeroThreads` when `size` is zero.
    ///
    /// Worker `i` gets id `i` and the handle that `spawn(i)` returns; `spawn` is
    /// called for `0, 1, ..., size - 1` in that order, and not at all when
    /// `size` is zero.
    pub fn build<F>(size: usize, sender: S, spawn: F) -> (r: Result<ThreadPool<S, H>, ThreadPoolError>)
        where
            F: Fn(usize) -> H,
        requires
            forall|i: usize| i < size ==> #[trigger] spawn.requires((i,)),
        ensures
            size == 0 <==> r is Err,
            r is Err ==> r->Err_0 == ThreadPoolError::ZeroThreads,
            r is Ok ==> {
                let p = r->Ok_0;
                &&& p.wf()
                &&& p.size() == size
                &&& p.sender() == Some(sender)
                &&& forall|i: int|
                    0 <= i < size ==> spawn.ensures(
                        (i as usize,),
                        (#[trigger] p.workers()[i]).thread()->Some_0,
                    )
            },
    {
        if size == 0 {
            return Err(ThreadPoolError::ZeroThreads);
        }
        let mut workers: Vec<Worker<H>> = Vec::with_capacity(size);
        let mut id: usize = 0;
        while id < size
            invariant
                id <= size,
                workers@.len() == id,
                forall|i: usize| i < size ==> #[trigger] spawn.requires((i,)),
                forall|i: int| 0 <= i < id ==> #[trigger] workers@[i].id() == i,
                forall|i: int|
                    0 <= i < id ==> (#[trigger] workers@[i]).thread() is Some && spawn.ensures(
                        (i as usize,),
                        workers@[i].thread()->Some_0,
                    ),
            decreases size - id,
        {
            let handle = spawn(id);
            workers.push(Worker::new(id, handle));
            id = id + 1;
        }
        Ok(ThreadPool { workers, sender: Some(sender) })
    }

    /// Routes a job: while the pool is active the job goes, with the sender,
    /// to be put on the queue; once it is shut down the job is given up.
    pub fn execute<J>(&self, job: J) -> (r: Option<(&S, J)>)
        ensures
            match r {
                Some((s, j)) => self.sender() == Some(*s) && j == job,
                None => !self.is_active(),
            },
    {
        match &self.sender {
            Some(s) => Some((s, job)),
            None => None,
        }
    }

    /// The id of each worker, in order.
    pub fn worker_ids(&self) -> (r: Vec<usize>)
        ensures
            r@.len() == self.size(),
            forall|i: int| 0 <= i < r@.len() ==> r@[i] == #[trigger] self.workers()[i].id(),
    {
        let mut r: Vec<usize> = Vec::new();
        let mut i: usize = 0;
        while i < self.workers.len()
            invariant
                i <= self.workers@.len(),
                r@.len() == i,
                forall|j: int| 0 <= j < i ==> r@[j] == #[trigger] self.workers@[j].id(),
            decreases self.workers@.len() - i,
        {
            r.push(self.workers[i].get_id());
            i = i + 1;
        }
        r
    }

    /// Shuts the pool down: takes the sender, whose drop closes the queue, and
    /// then the handle of each worker, in the order of the workers, to be
    /// joined one after the other. A second call hands out nothing.
    pub fn shutdown(&mut self) -> (r: (Option<S>, Vec<(usize, H)>))
        requires
            old(self).wf(),
        ensures
            final(self).wf(),
            !final(self).is_active(),
            final(self).size() == old(self).size(),
            forall|i: int|
                0 <= i < final(self).size() ==> (#[trigger] final(self).workers()[i]).thread() is None,
            r.0 == old(self).sender(),
            r.1@ == pending_joins(old(self).workers()),
    {
        let sender = self.sender.take();
        let ghost ws0 = self.workers@;
        let mut joins: Vec<(usize, H)> = Vec::new();
        let n = self.workers.len();
        let mut i: usize = 0;
        while i < n
            invariant
                n == self.workers@.len(),
                n == ws0.len(),
                n >= 1,
                i <= n,
                self.sender is None,
                forall|j: int| 0 <= j < n ==> #[trigger] self.workers@[j].id() == j,
                forall|j: int| 0 <= j < i ==> (#[trigger] self.workers@[j]).thread() is None,
                forall|j: int| i <= j < n ==> #[trigger] self.workers@[j] == ws0[j],
                joins@ == pending_joins(ws0.take(i as int)),
            decreases n - i,
        {
            let id = self.workers[i].get_id();
            let taken = self.workers[i].get_mut_thread().take();
            assert(ws0.take(i + 1).drop_last() =~= ws0.take(i as int));
            match taken {
                Some(h) => joins.push((id, h)),
                None => {},
            }
            i = i + 1;
        }
        assert(ws0.take(n as int) =~= ws0);
        (sender, joins)
    }
}

} // verus!

verus! {

/// Where every worker still owns its thread, the pending joins are exactly the
/// workers, one each, in order.
proof fn lemma_pending_joins_all<H>(ws: Seq<Worker<H>>)
    requires
        forall|i: int| 0 <= i < ws.len() ==> (#[trigger] ws[i]).thread() is Some,
    ensures
        pending_joins(ws).len() == ws.len(),
        forall|i: int|
            0 <= i < ws.len() ==> #[trigger] pending_joins(ws)[i] == (
                ws[i].id(),
                ws[i].thread()->Some_0,
            ),
    decreases ws.len(),
{
    if ws.len() > 0 {
        let rest = ws.drop_last();
        assert forall|i: int| 0 <= i < rest.len() implies (#[trigger] rest[i]).thread() is Some by {
            assert(rest[i] == ws[i]);
        }
        lemma_pending_joins_all(rest);
    }
}

/// Shutting down an active pool joins every worker exactly once, in the order
/// of their ids `0, 1, ..., size - 1`, so that no worker thread is left behind.
pub proof fn lemma_shutdown_joins_every_worker<S, H>(p: ThreadPool<S, H>)
    requires
        p.wf(),
        p.is_active(),
    ensures
        pending_joins(p.workers()).len() == p.size(),
        forall|i: int|
            0 <= i < p.size() ==> (#[trigger] pending_joins(p.workers())[i]).0 == i && Some(
                pending_joins(p.workers())[i].1,
            ) == p.workers()[i].thread(),
{
    lemma_pending_joins_all(p.workers());
    assert forall|i: int| 0 <= i < p.size() implies (#[trigger] pending_joins(p.workers())[i]).0
        == i && Some(pending_joins(p.workers())[i].1) == p.workers()[i].thread() by {
        assert(p.workers()[i].id() == i);
    }
}

/// With no handle left in any worker, there is nothing to join.
proof fn lemma_pending_joins_none<H>(ws: Seq<Worker<H>>)
    requires
        forall|i: int| 0 <= i < ws.len() ==> (#[trigger] ws[i]).thread() is None,
    ensures
        pending_joins(ws) == Seq::<(usize, H)>::empty(),
    decreases ws.len(),
{
    if ws.len() > 0 {
        let rest = ws.drop_last();
        assert forall|i: int| 0 <= i < rest.len() implies (#[trigger] rest[i]).thread() is None by {
            assert(rest[i] == ws[i]);
        }
        lemma_pending_joins_none(rest);
    }
}

/// A pool that has been shut down (no sender, every handle taken) has nothing
/// left to hand out: shutting it down again closes nothing and joins nothing.
pub proof fn lemma_shutdown_twice_joins_nothing<S, H>(p: ThreadPool<S, H>)
    requires
        p.wf(),
        !p.is_active(),
        forall|i: int| 0 <= i < p.size() ==> (#[trigger] p.workers()[i]).thread() is None,
    ensures
        p.sender() is None,
        pending_joins(p.workers()) == Seq::<(usize, H)>::empty(),
{
    lemma_pending_joins_none(p.workers());
}

} // verus!
