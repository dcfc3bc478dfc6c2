//! The per-task record that the executor keeps beside each scheduled future.

use std::sync::atomic::{AtomicUsize, Ordering};
use vstd::prelude::*;

use crate::routing::INVALID_ID;

verus! {

/// What the executor attaches to every task: a unique id and the processor
/// the task prefers for its next scheduling.
pub struct TaskTag {
    id: usize,
    schedule_hint: AtomicUsize,
}

/// A scheduled unit of work, as handed around by the queues.
pub type Task = async_task::Task<TaskTag>;

impl TaskTag {
    /// A tag with the next id drawn from `counter` and no schedule hint.
    pub fn new(counter: &AtomicUsize) -> TaskTag {
        TaskTag { id: counter.fetch_add(1, Ordering::Relaxed), schedule_hint: AtomicUsize::new(INVALID_ID) }
    }

    /// The task's unique id.
    pub fn id(&self) -> usize {
        self.id
    }

    /// The processor the task prefers, or a value that names none.
    pub fn schedule_hint(&self) -> usize {
        self.schedule_hint.load(Ordering::Relaxed)
    }

    /// Records the processor that is about to run the task.
    pub fn set_schedule_hint(&self, processor: usize) {
        self.schedule_hint.store(processor, Ordering::Relaxed)
    }
}

} // verus!
