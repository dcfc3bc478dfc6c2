//! The executor: the processors, the machine slots, task routing, global
//! polling, remote stealing and the system monitor's scan.

use std::sync::atomic::{AtomicUsize, Ordering};
use std::sync::{Arc, Mutex};

use crossbeam_deque::Worker;
use vstd::prelude::*;

use crate::machine::Machine;
use crate::primitives::{exchange_slot, load_slot, share, stealer_steal, StealOutcome};
use crate::processor::{Clock, Processor};
use crate::routing::{advance_steal_hint, route_push, stale_list, stale_processors};
use crate::walk::Walk;
use crate::tag::{Task, TaskTag};

verus! {

pub struct Executor {
    processors: Vec<Processor>,
    /// Round-robin choice of processor for tasks without a schedule hint.
    push_index_hint: AtomicUsize,
    /// `machines[i]` is the machine that currently runs `processors[i]`.
    machines: Vec<Mutex<Arc<Machine>>>,
    /// Which machine is tried first when stealing.
    steal_index_hint: AtomicUsize,
    task_ids: AtomicUsize,
    machine_ids: AtomicUsize,
    clock: Clock,
}

/// A machine that needs a driver thread: run `machine.main(worker, ..)` on
/// processor `processor`.
pub struct Launch {
    pub processor: usize,
    pub machine: Arc<Machine>,
    pub worker: Worker<Task>,
}

/// Where a poll or steal stands after one attempt.
pub enum Poll {
    /// A task was taken; the walk is over.
    Found(Task),
    /// The queue under visit met a concurrent attempt; the walk stays, so
    /// the same queue is tried again.
    Contended,
    /// The queue under visit was empty; the walk moved on to the next one.
    Advanced,
    /// Every queue of the walk was found empty.
    Exhausted,
}

/// How one attempt of a walk moves it: a found task, contention and the
/// end of the walk leave it in place, an empty queue moves it one slot on,
/// and the walk ends only at its last slot. So a walk over `n` slots ends
/// after at most `n` attempts that meet no contention.
pub open spec fn walk_moved(before: Walk, after: Walk, r: Poll) -> bool {
    &&& after.start == before.start
    &&& after.len == before.len
    &&& (r is Found || r is Contended || r is Exhausted) ==> after == before
    &&& r is Advanced ==> after.step == before.step + 1
    &&& r is Exhausted <==> (!(r is Found || r is Contended) && before.step + 1 == before.len)
}

/// How many attempts of `rs` found their queue empty.
pub open spec fn empties(rs: Seq<Poll>) -> nat
    decreases rs.len(),
{
    if rs.len() == 0 {
        0
    } else {
        empties(rs.drop_last()) + if rs.last() is Advanced || rs.last() is Exhausted {
            1nat
        } else {
            0nat
        }
    }
}

/// Along attempts that find no task and do not end the walk, the walk's step
/// counts the empty queues met so far.
proof fn lemma_walk_prefix(walks: Seq<Walk>, rs: Seq<Poll>, i: int)
    requires
        0 <= i < rs.len(),
        walks.len() == rs.len() + 1,
        walks[0].step == 0,
        forall|j: int| 0 <= j < rs.len() ==> walk_moved(walks[j], walks[j + 1], #[trigger] rs[j]),
        forall|j: int| 0 <= j < rs.len() ==> !(#[trigger] rs[j] is Found),
        forall|j: int| 0 <= j < rs.len() - 1 ==> !(#[trigger] rs[j] is Exhausted),
    ensures
        walks[i].step == empties(rs.take(i)),
        walks[i].len == walks[0].len,
    decreases i,
{
    if i == 0 {
        assert(rs.take(0).len() == 0);
    } else {
        lemma_walk_prefix(walks, rs, i - 1);
        assert(walk_moved(walks[i - 1], walks[i], rs[i - 1]));
        assert(rs.take(i).drop_last() =~= rs.take(i - 1));
    }
}

/// A global poll or remote steal that finds no task ends having seen each
/// queue empty exactly once: if the walks `walks` go from a fresh walk
/// through the attempts `rs`, none of which finds a task, and only the last
/// reports the walk exhausted, then `rs` holds exactly `len` empty outcomes,
/// whatever contention came between them.
pub proof fn lemma_exhausted_walk_sees_each_queue_once(walks: Seq<Walk>, rs: Seq<Poll>)
    requires
        rs.len() >= 1,
        walks.len() == rs.len() + 1,
        walks[0].wf(),
        walks[0].step == 0,
        forall|i: int| 0 <= i < rs.len() ==> walk_moved(walks[i], walks[i + 1], #[trigger] rs[i]),
        forall|i: int| 0 <= i < rs.len() ==> !(#[trigger] rs[i] is Found),
        forall|i: int| 0 <= i < rs.len() - 1 ==> !(#[trigger] rs[i] is Exhausted),
        rs.last() is Exhausted,
    ensures
        empties(rs) == walks[0].len,
{
    let m = rs.len() as int;
    lemma_walk_prefix(walks, rs, m - 1);
    assert(walk_moved(walks[m - 1], walks[m], rs[m - 1]));
    assert(rs.drop_last() =~= rs.take(m - 1));
}

/// The result of one attempt of a walk, and the walk's next position.
fn settle(walk: &mut Walk, outcome: StealOutcome) -> (r: Poll)
    requires
        old(walk).wf(),
    ensures
        final(walk).wf(),
        final(walk).start == old(walk).start,
        final(walk).len == old(walk).len,
        outcome is Success <==> r is Found,
        outcome is Retry <==> r is Contended,
        outcome is Empty <==> (r is Advanced || r is Exhausted),
        walk_moved(*old(walk), *final(walk), r),
{
    match outcome {
        StealOutcome::Success(task) => Poll::Found(task),
        StealOutcome::Retry => Poll::Contended,
        StealOutcome::Empty => {
            if walk.advance() {
                Poll::Advanced
            } else {
                Poll::Exhausted
            }
        },
    }
}

/// What one pass of the system monitor saw and did.
pub struct SysmonRound {
    /// The clock reading the pass judged by.
    pub now: u64,
    /// Each processor's `(sleeping, last_seen)`, by processor id.
    pub readings: Vec<(bool, u64)>,
    /// The processors found blocked, in increasing order.
    pub stale: Vec<usize>,
    /// The machines that replace them, in the same order.
    pub launches: Vec<Launch>,
}

/// The number of processors to run: one per usable CPU, at least one.
pub fn processor_count() -> (r: usize)
    ensures
        r >= 1,
{
    let n = num_cpus::get();
    if n < 1 {
        1
    } else {
        n
    }
}

impl Executor {
    /// The executor's shape: at least one processor, one machine slot per
    /// processor, and each processor at the index that is its id.
    pub closed spec fn wf(&self) -> bool {
        &&& self.processors.len() >= 1
        &&& self.machines.len() == self.processors.len()
        &&& forall|i: int| 0 <= i < self.processors.len() ==> #[trigger] self.processors[i].index() == i
    }

    /// The number of processors.
    pub closed spec fn size(&self) -> nat {
        self.processors@.len()
    }

    /// An executor with `n` processors, each taken by a new machine. The
    /// machines are returned in processor order, for the caller to start.
    pub fn new(n: usize) -> (r: (Executor, Vec<Launch>))
        requires
            n >= 1,
        ensures
            r.0.wf(),
            r.0.size() == n,
            r.1.len() == n,
            forall|i: int| 0 <= i < n ==> #[trigger] r.1[i].processor == i,
    {
        let mut processors: Vec<Processor> = Vec::new();
        let mut id: usize = 0;
        while id < n
            invariant
                id <= n,
                processors.len() == id,
                forall|j: int| 0 <= j < id ==> #[trigger] processors[j].index() == j,
            decreases n - id,
        {
            processors.push(Processor::new(id));
            id += 1;
        }
        let machine_ids = AtomicUsize::new(0);
        let empty_worker: Worker<Task> = Worker::new_fifo();
        let mut machines: Vec<Mutex<Arc<Machine>>> = Vec::new();
        let mut launches: Vec<Launch> = Vec::new();
        let mut index: usize = 0;
        while index < n
            invariant
                index <= n,
                processors.len() == n,
                machines.len() == index,
                launches.len() == index,
                forall|j: int| 0 <= j < index ==> #[trigger] launches[j].processor == j,
            decreases n - index,
        {
            // take over the processor, replacing its machine id
            let (machine, worker) = Machine::create_with_processor(
                &processors[index],
                empty_worker.stealer(),
                &machine_ids,
            );
            machines.push(Mutex::new(share(&machine)));
            launches.push(Launch { processor: index, machine, worker });
            index += 1;
        }
        let exec = Executor {
            processors,
            push_index_hint: AtomicUsize::new(0),
            machines,
            steal_index_hint: AtomicUsize::new(0),
            task_ids: AtomicUsize::new(0),
            machine_ids,
            clock: Clock::new(),
        };
        (exec, launches)
    }

    pub fn num_processors(&self) -> (r: usize)
        requires
            self.wf(),
        ensures
            r == self.size(),
            r >= 1,
    {
        self.processors.len()
    }

    /// The processor with id `index`.
    pub fn processor(&self, index: usize) -> (r: &Processor)
        requires
            self.wf(),
            index < self.size(),
        ensures
            r.index() == index,
    {
        &self.processors[index]
    }

    /// Milliseconds on the executor's clock.
    pub fn now_ms(&self) -> u64 {
        self.clock.now_ms()
    }

    /// A tag for a new task: the next task id, and no schedule hint.
    pub fn new_task_tag(&self) -> TaskTag {
        TaskTag::new(&self.task_ids)
    }

    /// Queues `t` on the processor its schedule hint names, or, when the hint
    /// names none, on the round-robin processor, moving the round-robin hint
    /// one step on; then wakes that processor.
    pub fn push(&self, t: Task)
        requires
            self.wf(),
    {
        let n = self.processors.len();
        let hint = t.tag().schedule_hint();
        let push_hint = if hint < n {
            0
        } else {
            self.push_index_hint.load(Ordering::Relaxed)
        };
        let (index, next) = route_push(hint, push_hint, n);
        if let Some(next) = next {
            // rotate the index, for a fair load
            self.push_index_hint.store(next, Ordering::Relaxed);
        }
        self.processors[index].push(t);
    }

    /// The walk of a global poll by processor `index`: its own queue first,
    /// then the others in circular order.
    pub fn pop_walk(&self, index: usize) -> (r: Walk)
        requires
            self.wf(),
            index < self.size(),
        ensures
            r.wf(),
            r == (Walk { start: index, step: 0, len: self.size() as usize }),
    {
        Walk::new(index, self.processors.len())
    }

    /// One attempt of a global poll: takes a batch from the queue under visit
    /// into `dest`. A task ends the poll; an empty queue moves the walk on,
    /// or ends the poll when it was the last; contention leaves the walk
    /// where it is, so the same queue is tried again.
    pub fn pop_step(&self, walk: &mut Walk, dest: &Worker<Task>) -> (r: Poll)
        requires
            self.wf(),
            old(walk).wf(),
            old(walk).len == self.size(),
        ensures
            final(walk).wf(),
            walk_moved(*old(walk), *final(walk), r),
    {
        let outcome = self.processors[walk.current()].try_pop(dest);
        settle(walk, outcome)
    }

    /// The walk of a remote steal: it begins at the steal hint.
    pub fn steal_walk(&self) -> (r: Walk)
        requires
            self.wf(),
        ensures
            r.wf(),
            r.step == 0,
            r.len == self.size(),
    {
        let n = self.machines.len();
        // the stored hint is always below n; reducing it keeps a stray value in range
        Walk::new(self.steal_index_hint.load(Ordering::Relaxed) % n, n)
    }

    /// One attempt of a remote steal: takes about half of the worker of the
    /// machine under visit into `dest`. A task ends the steal and moves the
    /// steal hint just past the donor; an empty worker moves the walk on, or
    /// ends the steal when it was the last; contention leaves the walk where
    /// it is, so the same machine is tried again.
    pub fn steal_step(&self, walk: &mut Walk, dest: &Worker<Task>) -> (r: Poll)
        requires
            self.wf(),
            old(walk).wf(),
            old(walk).len == self.size(),
        ensures
            final(walk).wf(),
            walk_moved(*old(walk), *final(walk), r),
    {
        let m = load_slot(&self.machines[walk.current()]);
        let outcome = stealer_steal(m.stealer(), dest);
        if let StealOutcome::Success(_) = &outcome {
            self.steal_index_hint.store(
                advance_steal_hint(walk.start, walk.step, walk.len),
                Ordering::Relaxed,
            );
        }
        settle(walk, outcome)
    }

    /// One pass of the system monitor. It reads every processor's sleeping
    /// flag and heartbeat, and each processor that is awake and has had no
    /// heartbeat for longer than the blocking threshold gets a new machine,
    /// which inherits the blocked machine's worker and replaces it in its
    /// slot. The round reports the readings, the processors found stale, and
    /// the new machines in the same order, for the caller to start; the
    /// replaced ones exit after their current task.
    pub fn sysmon_scan(&self) -> (r: SysmonRound)
        requires
            self.wf(),
        ensures
            r.readings.len() == self.size(),
            stale_list(r.readings@, r.now, r.stale@),
            r.launches.len() == r.stale.len(),
            forall|k: int| 0 <= k < r.launches.len() ==> #[trigger] r.launches[k].processor == r.stale[k],
    {
        let n = self.processors.len();
        let now = self.clock.now_ms();
        let mut readings: Vec<(bool, u64)> = Vec::new();
        let mut index: usize = 0;
        while index < n
            invariant
                self.wf(),
                n == self.processors.len(),
                index <= n,
                readings.len() == index,
            decreases n - index,
        {
            let p = &self.processors[index];
            readings.push((p.is_sleeping(), p.get_last_seen()));
            index += 1;
        }
        let stale = stale_processors(&readings, now);
        let mut launches: Vec<Launch> = Vec::new();
        let mut k: usize = 0;
        while k < stale.len()
            invariant
                self.wf(),
                n == self.processors.len(),
                readings.len() == n,
                stale_list(readings@, now, stale@),
                k <= stale.len(),
                launches.len() == k,
                forall|j: int| 0 <= j < k ==> #[trigger] launches[j].processor == stale[j],
            decreases stale.len() - k,
        {
            let index = stale[k];
            let p = &self.processors[index];
            let current = load_slot(&self.machines[index]);
            let (machine, worker) = Machine::create_with_processor(
                p,
                current.stealer().clone(),
                &self.machine_ids,
            );
            // the replaced reference is released when its thread lets go of it
            let _replaced = exchange_slot(&self.machines[index], share(&machine));
            launches.push(Launch { processor: index, machine, worker });
            k += 1;
        }
        SysmonRound { now, readings, stale, launches }
    }
}

} // verus!
