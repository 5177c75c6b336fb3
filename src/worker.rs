use vstd::prelude::*;

verus! {

/// One worker of a pool: a diagnostic id and the handle of its background
/// thread, held until it is taken once to be joined.
pub struct Worker<H> {
    thread: Option<H>,
    id: usize,
}

/// What a worker does with the outcome of one attempt to receive a job.
pub enum WorkerAction<J> {
    /// A job came in: run it to completion on this worker, then receive again.
    Run(J),
    /// The queue was closed: leave the loop and let the thread end.
    Stop,
}

impl<H> Worker<H> {
    /// The worker's id.
    pub closed spec fn id(&self) -> usize {
        self.id
    }

    /// The worker's thread handle, `None` once it has been taken.
    pub closed spec fn thread(&self) -> Option<H> {
        self.thread
    }

    /// A worker with the given id that owns the handle of the thread running it.
    pub fn new(id: usize, thread: H) -> (w: Worker<H>)
        ensures
            w.id() == id,
            w.thread() == Some(thread),
    {
        Worker { thread: Some(thread), id }
    }

    /// The worker's id; it serves diagnostics only and plays no part in
    /// which worker receives a job.
    pub fn get_id(&self) -> (r: usize)
        ensures
            r == self.id(),
    {
        self.id
    }

    /// Mutable access to the handle slot, so that the handle can be taken.
    pub fn get_mut_thread(&mut self) -> (r: &mut Option<H>)
        ensures
            *r == old(self).thread(),
            final(self).thread() == *final(r),
            final(self).id() == old(self).id(),
    {
        &mut self.thread
    }
}

/// The decision of a worker's loop: run what was received, or stop once the
/// queue reports that it is closed (`Err`).
pub fn next_action<J, E>(received: Result<J, E>) -> (a: WorkerAction<J>)
    ensures
        match received {
            Ok(job) => a == WorkerAction::Run(job),
            Err(_) => a is Stop,
        },
{
    match received {
        Ok(job) => WorkerAction::Run(job),
        Err(_) => WorkerAction::Stop,
    }
}

} // verus!
