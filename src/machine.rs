//! A machine: the driver of one OS thread, bound to one processor, running
//! the processor's tasks from a local FIFO worker.

use std::sync::atomic::{AtomicUsize, Ordering};
use std::sync::Arc;

use crossbeam_deque::{Stealer, Worker};
use vstd::prelude::*;

use crate::primitives::{stealer_steal, stealer_take_batch, StealOutcome};
use crate::processor::Processor;
use crate::tag::Task;

verus! {

pub struct Machine {
    /// Unique among all machines of the process.
    pub id: usize,
    /// Lets other machines steal from this machine's worker.
    stealer: Stealer<Task>,
    /// The worker of the machine this one replaced, drained before anything else.
    inherit: Stealer<Task>,
}

impl Machine {
    /// Makes a machine with a fresh id from `ids`, binds `p` to it (which tells
    /// the processor's previous machine that it has been replaced) and returns
    /// it with the local worker that its driver thread is to own.
    pub fn create_with_processor(
        p: &Processor,
        inherit: Stealer<Task>,
        ids: &AtomicUsize,
    ) -> (r: (Arc<Machine>, Worker<Task>))
        ensures
            r.0.inherit_handle() == inherit,
    {
        let id = ids.fetch_add(1, Ordering::Relaxed);
        // take over the processor
        p.bind(id);
        let worker = Worker::new_fifo();
        let stealer = worker.stealer();
        (Arc::new(Machine { id, stealer, inherit }), worker)
    }

    /// The handle on the worker of the machine this one replaced.
    pub closed spec fn inherit_handle(&self) -> Stealer<Task> {
        self.inherit
    }

    /// The handle through which other machines steal from this one.
    pub fn stealer(&self) -> &Stealer<Task> {
        &self.stealer
    }

    /// Takes a batch of the replaced machine's work into `worker`; done once,
    /// when the machine starts.
    pub fn take_inherited(&self, worker: &Worker<Task>) {
        stealer_take_batch(&self.inherit, worker)
    }

    /// One attempt to take work from the replaced machine's worker.
    pub fn steal_inherited(&self, worker: &Worker<Task>) -> Option<Task> {
        match stealer_steal(&self.inherit, worker) {
            StealOutcome::Success(task) => Some(task),
            _ => None,
        }
    }

    /// Runs one task on `processor` and says whether this machine still holds
    /// the processor afterwards; when it does not, the system monitor has
    /// replaced it and the machine must stop.
    pub fn run_task(&self, task: Task, processor: &Processor) -> bool {
        // so that the task is pushed to this processor again when it wakes
        task.tag().set_schedule_hint(processor.id());
        let _ = task.run();
        processor.machine_id() == self.id
    }
}

} // verus!
