//! A processor: a logical execution context with its own global queue,
//! heartbeat, sleeping flag and one-slot wake channel.

use std::sync::atomic::{AtomicBool, AtomicU64, AtomicUsize, Ordering};
use std::time::Instant;

use crossbeam_channel::{Receiver, Sender};
use crossbeam_deque::{Injector, Worker};
use crossbeam_utils::Backoff;
use vstd::prelude::*;

use crate::primitives::{
    elapsed_ms, injector_steal, try_notify, try_take_notification, wait_notification,
    StealOutcome,
};
use crate::routing::INVALID_ID;
use crate::tag::Task;

verus! {

/// The most snoozes spent spinning before blocking on the wake channel; the
/// backoff normally advises blocking well before.
pub const SPIN_LIMIT: usize = 32;

/// The executor's millisecond clock, counted from its creation.
pub struct Clock {
    start: Instant,
}

impl Clock {
    pub fn new() -> Clock {
        Clock { start: Instant::now() }
    }

    /// Milliseconds since the clock was made.
    pub fn now_ms(&self) -> u64 {
        elapsed_ms(&self.start)
    }
}

pub struct Processor {
    /// The processor's index in the executor.
    id: usize,
    /// The id of the machine that holds the processor now.
    machine_id: AtomicUsize,
    /// Time of the latest heartbeat, for blocking detection.
    last_seen: AtomicU64,
    sleeping: AtomicBool,
    /// The global queue dedicated to this processor.
    injector: Injector<Task>,
    wake_up: Sender<()>,
    wake_up_notif: Receiver<()>,
}

impl Processor {
    /// A processor that no machine holds yet, marked sleeping, with an empty
    /// queue and an empty wake slot.
    pub fn new(id: usize) -> (r: Processor)
        ensures
            r.index() == id,
    {
        // one buffered notification is enough to say that work has arrived
        let (wake_up, wake_up_notif) = crossbeam_channel::bounded(1);
        Processor {
            id,
            machine_id: AtomicUsize::new(INVALID_ID),
            last_seen: AtomicU64::new(0),
            sleeping: AtomicBool::new(true),
            injector: Injector::new(),
            wake_up,
            wake_up_notif,
        }
    }

    /// The processor's index in the executor.
    pub closed spec fn index(&self) -> usize {
        self.id
    }

    pub fn id(&self) -> (r: usize)
        ensures
            r == self.index(),
    {
        self.id
    }

    pub fn is_sleeping(&self) -> bool {
        self.sleeping.load(Ordering::Relaxed)
    }

    pub fn set_sleeping(&self, b: bool) {
        self.sleeping.store(b, Ordering::Relaxed)
    }

    pub fn get_last_seen(&self) -> u64 {
        self.last_seen.load(Ordering::Relaxed)
    }

    /// Records a heartbeat at `now`.
    pub fn tick(&self, now: u64) {
        self.last_seen.store(now, Ordering::Relaxed)
    }

    /// The id of the machine that holds the processor.
    pub fn machine_id(&self) -> usize {
        self.machine_id.load(Ordering::Relaxed)
    }

    /// Hands the processor to the machine `id`.
    pub fn bind(&self, id: usize) {
        self.machine_id.store(id, Ordering::Relaxed)
    }

    /// Queues a task and then leaves a wake notification. When the slot is
    /// already full the new notification is dropped: the pending one suffices.
    pub fn push(&self, t: Task) {
        self.injector.push(t);
        let _ = try_notify(&self.wake_up);
    }

    /// One attempt to take a batch from this processor's queue into `dest`,
    /// handing one task of it out.
    pub fn try_pop(&self, dest: &Worker<Task>) -> StealOutcome {
        injector_steal(&self.injector, dest)
    }

    /// Parks the calling machine until a notification arrives: marks the
    /// processor sleeping, spins with backoff on the wake slot, then blocks on
    /// it, and clears the mark on the way out. Returns `false` only when the
    /// wake channel has been disconnected.
    pub fn sleep(&self) -> bool {
        self.set_sleeping(true);
        let backoff = Backoff::new();
        let mut spins: usize = 0;
        while spins <= SPIN_LIMIT
            invariant
                spins <= SPIN_LIMIT + 1,
            decreases SPIN_LIMIT + 1 - spins,
        {
            if try_take_notification(&self.wake_up_notif) {
                self.set_sleeping(false);
                return true;
            }
            if backoff.is_completed() || spins == SPIN_LIMIT {
                break ;
            }
            backoff.snooze();
            spins += 1;
        }
        let woken = wait_notification(&self.wake_up_notif);
        self.set_sleeping(false);
        woken
    }
}

} // verus!
