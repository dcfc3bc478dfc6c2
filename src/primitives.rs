//! The outside building blocks the scheduler rests on: lock-free deques and
//! injectors, the one-slot wake channel, spin backoff, the task handle, the
//! machine slots and the clock. Each item here is trusted: Verus takes its
//! contract as given.

use std::sync::{Arc, Mutex};
use std::time::Instant;

use async_task::Task as RawTask;
use crossbeam_channel::{Receiver, Sender};
use crossbeam_deque::{Injector, Steal, Stealer, Worker};
use crossbeam_utils::Backoff;
use vstd::prelude::*;

use crate::machine::Machine;
use crate::tag::Task;

verus! {

#[verifier::external_type_specification]
#[verifier::external_body]
#[verifier::reject_recursive_types(T)]
pub struct ExRawTask<T>(RawTask<T>);

#[verifier::external_type_specification]
#[verifier::external_body]
#[verifier::reject_recursive_types(T)]
pub struct ExInjector<T>(Injector<T>);

#[verifier::external_type_specification]
#[verifier::external_body]
#[verifier::reject_recursive_types(T)]
pub struct ExWorker<T>(Worker<T>);

#[verifier::external_type_specification]
#[verifier::external_body]
#[verifier::reject_recursive_types(T)]
pub struct ExStealer<T>(Stealer<T>);

#[verifier::external_type_specification]
#[verifier::external_body]
#[verifier::reject_recursive_types(T)]
pub struct ExSender<T>(Sender<T>);

#[verifier::external_type_specification]
#[verifier::external_body]
#[verifier::reject_recursive_types(T)]
pub struct ExReceiver<T>(Receiver<T>);

#[verifier::external_type_specification]
#[verifier::external_body]
pub struct ExBackoff(Backoff);

#[verifier::external_type_specification]
#[verifier::external_body]
#[verifier::reject_recursive_types(T)]
pub struct ExMutex<T: ?Sized>(Mutex<T>);

#[verifier::external_type_specification]
#[verifier::external_body]
pub struct ExInstant(Instant);

/// Relies on async_task's `Task::tag`: a shared view of the tag stored with the task.
pub assume_specification<T>[ RawTask::<T>::tag ](task: &RawTask<T>) -> &T;

/// Relies on async_task's `Task::run`: polls the future once, consuming the handle.
pub assume_specification<T>[ RawTask::<T>::run ](task: RawTask<T>) -> bool;

/// Relies on crossbeam_deque's `Injector::new`: an empty global queue.
pub assume_specification<T>[ Injector::<T>::new ]() -> Injector<T>;

/// Relies on crossbeam_deque's `Injector::push`: appends at the back.
pub assume_specification<T>[ Injector::<T>::push ](injector: &Injector<T>, task: T);

/// Relies on crossbeam_deque's `Worker::new_fifo`: an empty first-in-first-out worker.
pub assume_specification<T>[ Worker::<T>::new_fifo ]() -> Worker<T>;

/// Relies on crossbeam_deque's `Worker::stealer`: a handle on the same deque.
pub assume_specification<T>[ Worker::<T>::stealer ](worker: &Worker<T>) -> Stealer<T>;

/// Relies on crossbeam_deque's `Stealer::clone`: another handle on the same deque.
pub assume_specification<T>[ <Stealer<T> as Clone>::clone ](stealer: &Stealer<T>) -> Stealer<T>;

/// Relies on crossbeam_channel's `bounded`: a channel that buffers `cap` messages.
pub assume_specification<T>[ crossbeam_channel::bounded::<T> ](cap: usize) -> (Sender<T>, Receiver<T>);

/// Relies on crossbeam_utils's `Backoff::new`: a fresh backoff at its first step.
pub assume_specification[ Backoff::new ]() -> Backoff;

/// Relies on crossbeam_utils's `Backoff::snooze`: spins or yields, a longer while each time.
pub assume_specification[ Backoff::snooze ](backoff: &Backoff);

/// Relies on crossbeam_utils's `Backoff::is_completed`: whether blocking is advised over spinning.
pub assume_specification[ Backoff::is_completed ](backoff: &Backoff) -> bool;

/// Relies on std's `Mutex::new`: a lock around the value.
pub assume_specification<T>[ Mutex::<T>::new ](t: T) -> Mutex<T>;

/// Relies on std's `Instant::now`: a reading of the monotonic clock.
pub assume_specification[ Instant::now ]() -> Instant;

/// Relies on num_cpus's `get`: the number of logical CPUs this process may use.
pub assume_specification[ num_cpus::get ]() -> usize;

/// What one attempt to take work from a shared queue came to.
pub enum StealOutcome {
    /// A task was taken (a batch may have moved into the destination worker too).
    Success(Task),
    /// The queue was empty.
    Empty,
    /// The attempt met a concurrent one and must be made again.
    Retry,
}

/// Relies on crossbeam_deque's `Injector::steal_batch_and_pop`: moves a batch
/// into `dest` and hands one task out, or reports an empty queue or contention.
#[verifier::external_body]
pub fn injector_steal(injector: &Injector<Task>, dest: &Worker<Task>) -> StealOutcome {
    match injector.steal_batch_and_pop(dest) {
        Steal::Success(task) => StealOutcome::Success(task),
        Steal::Empty => StealOutcome::Empty,
        Steal::Retry => StealOutcome::Retry,
    }
}

/// Relies on crossbeam_deque's `Stealer::steal_batch_and_pop`: moves about half
/// of the source into `dest` and hands one task out, or reports an empty
/// source or contention.
#[verifier::external_body]
pub fn stealer_steal(stealer: &Stealer<Task>, dest: &Worker<Task>) -> StealOutcome {
    match stealer.steal_batch_and_pop(dest) {
        Steal::Success(task) => StealOutcome::Success(task),
        Steal::Empty => StealOutcome::Empty,
        Steal::Retry => StealOutcome::Retry,
    }
}

/// Relies on crossbeam_deque's `Stealer::steal_batch`: moves a batch of the
/// source into `dest`; whether anything moved is not needed.
#[verifier::external_body]
pub fn stealer_take_batch(stealer: &Stealer<Task>, dest: &Worker<Task>) {
    let _ = stealer.steal_batch(dest);
}

/// Relies on crossbeam_channel's `Sender::try_send`: queues a wake notification
/// unless the slot is already full (or the receiver is gone); `true` when it was queued.
#[verifier::external_body]
pub fn try_notify(sender: &Sender<()>) -> bool {
    sender.try_send(()).is_ok()
}

/// Relies on crossbeam_channel's `Receiver::try_recv`: takes a pending
/// notification without blocking; `true` when there was one.
#[verifier::external_body]
pub fn try_take_notification(receiver: &Receiver<()>) -> bool {
    receiver.try_recv().is_ok()
}

/// Relies on crossbeam_channel's `Receiver::recv`: blocks until a notification
/// arrives (`true`) or every sender is gone (`false`).
#[verifier::external_body]
pub fn wait_notification(receiver: &Receiver<()>) -> bool {
    receiver.recv().is_ok()
}

/// Relies on std's `Mutex::lock`: a new reference to the machine now in the slot.
/// A poisoned lock still holds a whole `Arc`, so its value is taken as it is.
#[verifier::external_body]
pub fn load_slot(slot: &Mutex<Arc<Machine>>) -> Arc<Machine> {
    Arc::clone(&*slot.lock().unwrap_or_else(|e| e.into_inner()))
}

/// Relies on std's `Mutex::lock`: installs `machine` in the slot and hands back
/// the reference it replaced, in one step with respect to `load_slot`.
#[verifier::external_body]
pub fn exchange_slot(slot: &Mutex<Arc<Machine>>, machine: Arc<Machine>) -> Arc<Machine> {
    std::mem::replace(&mut *slot.lock().unwrap_or_else(|e| e.into_inner()), machine)
}

/// Relies on std's `Arc::clone`: one more reference to the same machine.
#[verifier::external_body]
pub fn share(machine: &Arc<Machine>) -> (r: Arc<Machine>)
    ensures
        r == *machine,
{
    Arc::clone(machine)
}

/// Relies on std's `Instant::elapsed`: whole milliseconds since `start`,
/// cut to 64 bits.
#[verifier::external_body]
pub fn elapsed_ms(start: &Instant) -> u64 {
    start.elapsed().as_millis() as u64
}

} // verus!
