use std::sync::atomic::{AtomicUsize, Ordering};
use std::sync::Arc;
use std::time::{Duration, Instant};

use crossbeam_deque::Worker;
use goexec::dispatch::{Dispatch, Stage};
use goexec::executor::{processor_count, Executor, Poll};
use goexec::machine::Machine;
use goexec::primitives::StealOutcome;
use goexec::routing::{
    stale_processors, advance_steal_hint, is_blocked, rotate, route_push, BLOCKING_THRESHOLD_MS, INVALID_ID, MAX_RUNS,
};
use goexec::tag::{Task, TaskTag};
use goexec::walk::Walk;

fn task_with_hint(exec: &Executor, hint: usize) -> Task {
    let tag = exec.new_task_tag();
    tag.set_schedule_hint(hint);
    let (task, _handle) = async_task::spawn(async {}, |_t: Task| {}, tag);
    task
}

fn counting_task(exec: &Executor, counter: Arc<AtomicUsize>) -> Task {
    let tag = exec.new_task_tag();
    let (task, _handle) = async_task::spawn(
        async move {
            counter.fetch_add(1, Ordering::SeqCst);
        },
        |_t: Task| {},
        tag,
    );
    task
}

/// Drains processor `index`'s global queue and counts the tasks in it.
fn drain_count(exec: &Executor, index: usize) -> usize {
    let worker: Worker<Task> = Worker::new_fifo();
    let mut count = 0;
    loop {
        match exec.processor(index).try_pop(&worker) {
            StealOutcome::Success(_t) => count += 1,
            StealOutcome::Empty => break,
            StealOutcome::Retry => {}
        }
        while worker.pop().is_some() {
            count += 1;
        }
    }
    count
}

#[test]
fn route_push_follows_valid_hint() {
    assert_eq!(route_push(2, 0, 4), (2, None));
    assert_eq!(route_push(0, 3, 4), (0, None));
}

#[test]
fn route_push_invalid_hint_uses_round_robin() {
    assert_eq!(route_push(INVALID_ID, 3, 4), (3, Some(0)));
    assert_eq!(route_push(INVALID_ID, 1, 4), (1, Some(2)));
    // a hint equal to the processor count is no processor either
    assert_eq!(route_push(4, 2, 4), (2, Some(3)));
    assert_eq!(route_push(INVALID_ID, 0, 1), (0, Some(0)));
}

#[test]
fn push_hint_returns_after_n_pushes() {
    let n = 5;
    let mut hint = 2;
    for k in 0..n {
        let (target, next) = route_push(INVALID_ID, hint, n);
        assert_eq!(target, (2 + k) % n);
        hint = next.unwrap();
    }
    assert_eq!(hint, 2);
}

#[test]
fn rotation_wraps_around() {
    assert_eq!(rotate(2, 0, 4), 2);
    assert_eq!(rotate(2, 1, 4), 3);
    assert_eq!(rotate(2, 2, 4), 0);
    assert_eq!(rotate(2, 3, 4), 1);
    assert_eq!(rotate(usize::MAX - 1, 1, usize::MAX), 0);
}

#[test]
fn steal_hint_points_past_donor() {
    assert_eq!(advance_steal_hint(0, 0, 4), 1);
    assert_eq!(advance_steal_hint(2, 1, 4), 0);
    assert_eq!(advance_steal_hint(3, 3, 4), 3);
    assert_eq!(advance_steal_hint(0, 0, 1), 0);
    // two steals in a row: donors 1 then 3, from hint 0
    let h1 = advance_steal_hint(0, 1, 4);
    assert_eq!(h1, 2);
    let h2 = advance_steal_hint(h1, 1, 4);
    assert_eq!(h2, 0);
}

#[test]
fn blocked_after_threshold_only_when_awake() {
    assert!(is_blocked(false, 0, BLOCKING_THRESHOLD_MS + 1));
    assert!(!is_blocked(false, 0, BLOCKING_THRESHOLD_MS));
    assert!(!is_blocked(true, 0, 10_000));
    assert!(!is_blocked(false, 500, 550));
    assert!(!is_blocked(false, 0, 0));
    assert!(is_blocked(false, 1000, 1101));
}

#[test]
fn stale_processors_lists_exactly_the_blocked_ones() {
    let readings = vec![(false, 0), (true, 0), (false, 950), (false, 899), (false, 900)];
    assert_eq!(stale_processors(&readings, 1000), vec![0, 3]);
    assert_eq!(stale_processors(&readings, 50), Vec::<usize>::new());
    assert_eq!(stale_processors(&vec![], 1000), Vec::<usize>::new());
}

#[test]
fn walk_visits_every_slot_once() {
    let mut w = Walk::new(3, 4);
    let mut seen = vec![w.current()];
    while w.advance() {
        seen.push(w.current());
    }
    assert_eq!(seen, vec![3, 0, 1, 2]);
    assert_eq!(w.step, 3);
}

#[test]
fn task_ids_increase_and_start_without_hint() {
    let counter = AtomicUsize::new(0);
    let a = TaskTag::new(&counter);
    let b = TaskTag::new(&counter);
    let c = TaskTag::new(&counter);
    assert_eq!((a.id(), b.id(), c.id()), (0, 1, 2));
    assert_eq!(a.schedule_hint(), INVALID_ID);
    a.set_schedule_hint(3);
    assert_eq!(a.schedule_hint(), 3);
}

#[test]
fn new_executor_binds_one_machine_per_processor() {
    let (exec, launches) = Executor::new(3);
    assert_eq!(exec.num_processors(), 3);
    assert_eq!(launches.len(), 3);
    for (i, l) in launches.iter().enumerate() {
        assert_eq!(l.processor, i);
        assert_eq!(l.machine.id, i);
        assert_eq!(exec.processor(i).id(), i);
        assert_eq!(exec.processor(i).machine_id(), l.machine.id);
        assert!(exec.processor(i).is_sleeping());
    }
}

#[test]
fn round_robin_push_spreads_evenly() {
    let (exec, _launches) = Executor::new(4);
    for _ in 0..8 {
        exec.push(task_with_hint(&exec, INVALID_ID));
    }
    for i in 0..4 {
        assert_eq!(drain_count(&exec, i), 2);
    }
}

#[test]
fn push_follows_schedule_hint() {
    let (exec, _launches) = Executor::new(4);
    for _ in 0..5 {
        exec.push(task_with_hint(&exec, 2));
    }
    assert_eq!(drain_count(&exec, 0), 0);
    assert_eq!(drain_count(&exec, 1), 0);
    assert_eq!(drain_count(&exec, 2), 5);
    assert_eq!(drain_count(&exec, 3), 0);
    // the round-robin hint was not moved by hinted pushes
    exec.push(task_with_hint(&exec, INVALID_ID));
    assert_eq!(drain_count(&exec, 0), 1);
}

#[test]
fn global_poll_starts_at_own_queue_then_rotates() {
    let (exec, _launches) = Executor::new(4);
    exec.push(task_with_hint(&exec, 0));
    exec.push(task_with_hint(&exec, 3));
    let worker: Worker<Task> = Worker::new_fifo();
    let mut walk = exec.pop_walk(2);
    assert_eq!(walk.current(), 2);
    assert!(matches!(exec.pop_step(&mut walk, &worker), Poll::Advanced));
    assert_eq!(walk.current(), 3);
    assert!(matches!(exec.pop_step(&mut walk, &worker), Poll::Found(_)));
    assert_eq!(walk.current(), 3);
    assert_eq!(drain_count(&exec, 0), 1);
}

#[test]
fn global_poll_on_empty_queues_is_exhausted() {
    let (exec, _launches) = Executor::new(3);
    let worker: Worker<Task> = Worker::new_fifo();
    let mut walk = exec.pop_walk(1);
    let mut attempts = 0;
    loop {
        attempts += 1;
        match exec.pop_step(&mut walk, &worker) {
            Poll::Found(_) => panic!("no task was pushed"),
            Poll::Contended | Poll::Advanced => {}
            Poll::Exhausted => break,
        }
    }
    assert_eq!(attempts, 3);
}

#[test]
fn single_processor_steal_finds_nothing() {
    let (exec, _launches) = Executor::new(1);
    let worker: Worker<Task> = Worker::new_fifo();
    let mut walk = exec.steal_walk();
    assert_eq!(walk.current(), 0);
    assert!(matches!(exec.steal_step(&mut walk, &worker), Poll::Exhausted));
}

#[test]
fn steal_takes_from_first_busy_machine_and_moves_hint() {
    let (exec, launches) = Executor::new(3);
    for _ in 0..4 {
        launches[1].worker.push(task_with_hint(&exec, INVALID_ID));
    }
    let worker: Worker<Task> = Worker::new_fifo();
    let mut walk = exec.steal_walk();
    assert_eq!(walk.current(), 0);
    assert!(matches!(exec.steal_step(&mut walk, &worker), Poll::Advanced));
    assert!(matches!(exec.steal_step(&mut walk, &worker), Poll::Found(_)));
    // the next steal begins just past the donor
    assert_eq!(exec.steal_walk().current(), 2);
}

#[test]
fn counting_task_runs_once_and_machine_keeps_processor() {
    let (exec, launches) = Executor::new(2);
    let counter = Arc::new(AtomicUsize::new(0));
    let task = counting_task(&exec, counter.clone());
    let machine = &launches[0].machine;
    assert!(machine.run_task(task, exec.processor(0)));
    assert_eq!(counter.load(Ordering::SeqCst), 1);
    assert_eq!(exec.processor(0).machine_id(), machine.id);
    assert_eq!(exec.processor(1).machine_id(), launches[1].machine.id);
}

/// A future that is pending once, waking itself, and then ready.
struct YieldOnce(bool);

impl std::future::Future for YieldOnce {
    type Output = ();

    fn poll(mut self: std::pin::Pin<&mut Self>, cx: &mut std::task::Context<'_>) -> std::task::Poll<()> {
        if self.0 {
            std::task::Poll::Ready(())
        } else {
            self.0 = true;
            cx.waker().wake_by_ref();
            std::task::Poll::Pending
        }
    }
}

#[test]
fn run_task_records_processor_in_hint() {
    let (exec, launches) = Executor::new(2);
    let tag = exec.new_task_tag();
    let seen = Arc::new(AtomicUsize::new(INVALID_ID));
    let seen2 = seen.clone();
    let (task, _h) = async_task::spawn(
        YieldOnce(false),
        move |t: Task| {
            seen2.store(t.tag().schedule_hint(), Ordering::SeqCst);
        },
        tag,
    );
    assert!(launches[1].machine.run_task(task, exec.processor(1)));
    assert_eq!(seen.load(Ordering::SeqCst), 1);
}

#[test]
fn sleeping_processors_are_never_replaced() {
    let (exec, _launches) = Executor::new(2);
    assert!(exec.sysmon_scan().launches.is_empty());
}

#[test]
fn stale_awake_processor_gets_new_machine() {
    let (exec, launches) = Executor::new(2);
    exec.processor(0).set_sleeping(false);
    exec.processor(0).tick(exec.now_ms());
    let begin = Instant::now();
    while begin.elapsed() < Duration::from_millis(BLOCKING_THRESHOLD_MS + 30) {}
    let round = exec.sysmon_scan();
    let replaced = round.launches;
    assert_eq!(round.stale, vec![0]);
    assert_eq!(round.readings.len(), 2);
    assert!(!round.readings[0].0);
    assert!(round.readings[1].0);
    assert_eq!(replaced.len(), 1);
    assert_eq!(replaced[0].processor, 0);
    assert_eq!(replaced[0].machine.id, 2);
    assert_eq!(exec.processor(0).machine_id(), 2);
    assert_eq!(exec.processor(1).machine_id(), launches[1].machine.id);
    // the old machine sees the take-over after its current task
    let counter = Arc::new(AtomicUsize::new(0));
    let task = counting_task(&exec, counter.clone());
    assert!(!launches[0].machine.run_task(task, exec.processor(0)));
    assert_eq!(counter.load(Ordering::SeqCst), 1);
}

#[test]
fn single_processor_machine_is_still_replaced() {
    let (exec, launches) = Executor::new(1);
    exec.processor(0).set_sleeping(false);
    exec.processor(0).tick(exec.now_ms());
    let begin = Instant::now();
    while begin.elapsed() < Duration::from_millis(BLOCKING_THRESHOLD_MS + 30) {}
    let round = exec.sysmon_scan();
    let replaced = round.launches;
    assert_eq!(replaced.len(), 1);
    assert_eq!(replaced[0].processor, 0);
    assert_ne!(replaced[0].machine.id, launches[0].machine.id);
    assert_eq!(exec.processor(0).machine_id(), replaced[0].machine.id);
    // a fresh heartbeat keeps the new machine in place
    exec.processor(0).tick(exec.now_ms());
    assert!(exec.sysmon_scan().launches.is_empty());
}

#[test]
fn replacement_inherits_blocked_machine_work() {
    let (exec, launches) = Executor::new(2);
    for _ in 0..2 {
        launches[0].worker.push(task_with_hint(&exec, 0));
    }
    exec.processor(0).set_sleeping(false);
    exec.processor(0).tick(exec.now_ms());
    let begin = Instant::now();
    while begin.elapsed() < Duration::from_millis(BLOCKING_THRESHOLD_MS + 30) {}
    let round = exec.sysmon_scan();
    let replaced = round.launches;
    assert_eq!(replaced.len(), 1);
    let fresh = &replaced[0];
    fresh.machine.take_inherited(&fresh.worker);
    let mut got = 0;
    while fresh.worker.pop().is_some() {
        got += 1;
    }
    while fresh.machine.steal_inherited(&fresh.worker).is_some() {
        got += 1;
        while fresh.worker.pop().is_some() {
            got += 1;
        }
    }
    assert_eq!(got, 2);
}

#[test]
fn pushed_task_wakes_sleeping_processor() {
    let (exec, _launches) = Executor::new(1);
    // several pushes leave a single pending notification
    for _ in 0..3 {
        exec.push(task_with_hint(&exec, INVALID_ID));
    }
    assert!(exec.processor(0).sleep());
    assert!(!exec.processor(0).is_sleeping());
    assert_eq!(drain_count(&exec, 0), 3);
}

#[test]
fn idle_machine_reaches_sleep_in_five_steps() {
    let mut d = Dispatch::new();
    let mut stages = vec![d.stage()];
    for _ in 0..5 {
        d.advance(false);
        stages.push(d.stage());
    }
    assert_eq!(
        stages,
        vec![Stage::Heartbeat, Stage::Local, Stage::Inherited, Stage::Global, Stage::Remote, Stage::Sleep]
    );
    d.advance(true);
    assert_eq!(d.stage(), Stage::WokenGlobal);
    assert_eq!(d.run_counter, 0);
    d.advance(false);
    assert_eq!(d.stage(), Stage::Heartbeat);
}

#[test]
fn long_run_polls_global_queues_first() {
    let mut d = Dispatch::new();
    for _ in 0..(MAX_RUNS + 1) {
        d.advance(false);
        assert!(d.stage() == Stage::Local || d.stage() == Stage::ThrottledGlobal);
        d.advance(true);
    }
    assert_eq!(d.run_counter, MAX_RUNS + 1);
    d.advance(false);
    assert_eq!(d.stage(), Stage::ThrottledGlobal);
    assert_eq!(d.run_counter, 0);
    d.advance(false);
    assert_eq!(d.stage(), Stage::Local);
}

#[test]
fn at_least_one_processor() {
    assert!(processor_count() >= 1);
}

#[test]
fn fresh_machine_has_next_id_and_binds() {
    let (exec, launches) = Executor::new(1);
    let ids = AtomicUsize::new(7);
    let (m, _w) = Machine::create_with_processor(exec.processor(0), launches[0].machine.stealer().clone(), &ids);
    assert_eq!(m.id, 7);
    assert_eq!(exec.processor(0).machine_id(), 7);
    assert_eq!(ids.load(Ordering::SeqCst), 8);
}
