//! The index arithmetic of the scheduler: where a pushed task goes, in what
//! order global queues and peer machines are visited, how the rotating hints
//! advance, and when a processor counts as blocked.

use vstd::arithmetic::div_mod::{lemma_add_mod_noop, lemma_mod_twice, lemma_small_mod};
use vstd::prelude::*;

verus! {

/// The "none" value of a schedule hint and of a processor's machine id.
pub const INVALID_ID: usize = usize::MAX;

/// How long (in milliseconds) a non-sleeping processor may go without a
/// heartbeat before its machine is considered blocked.
pub const BLOCKING_THRESHOLD_MS: u64 = 100;

/// Number of tasks a machine runs in a row before it inspects the global queues.
pub const MAX_RUNS: u64 = 64;

/// The processor that a task with `schedule_hint` is pushed to, given the
/// current round-robin push hint and `n` processors.
pub open spec fn push_target(schedule_hint: int, push_hint: int, n: int) -> int {
    if 0 <= schedule_hint < n {
        schedule_hint
    } else {
        push_hint % n
    }
}

/// The push hint after one round-robin placement made from `push_hint`.
pub open spec fn next_push_hint(push_hint: int, n: int) -> int {
    (push_hint % n + 1) % n
}

/// The push hint after `k` pushes of tasks that carry no schedule hint.
pub open spec fn push_hint_after(push_hint: int, n: int, k: nat) -> int
    decreases k,
{
    if k == 0 {
        push_hint
    } else {
        next_push_hint(push_hint_after(push_hint, n, (k - 1) as nat), n)
    }
}

/// Position `k` of a circular walk over `n` slots that begins at `start`.
pub open spec fn rotation(start: int, k: int, n: int) -> int {
    (start + k) % n
}

/// How many steps a circular walk over `n` slots from `start` takes to reach `j`.
pub open spec fn steps_to(start: int, j: int, n: int) -> int {
    if j >= start {
        j - start
    } else {
        j + n - start
    }
}

/// The steal hint after a successful steal from the machine found `offset`
/// steps after `start`: it points just past the donor.
pub open spec fn next_steal_hint(start: int, offset: int, n: int) -> int {
    (start + offset + 1) % n
}

/// Whether a processor with these heartbeat readings, observed at `now`,
/// holds a blocked machine.
pub open spec fn blocked(sleeping: bool, last_seen: u64, now: u64) -> bool {
    !sleeping && last_seen + BLOCKING_THRESHOLD_MS < now
}

/// Chooses the processor for a pushed task. A hint that names a processor is
/// followed; any other hint (the sentinel included) takes the round-robin
/// slot, and the new round-robin value is returned beside it.
pub fn route_push(schedule_hint: usize, push_hint: usize, n: usize) -> (r: (usize, Option<usize>))
    requires
        n >= 1,
    ensures
        r.0 < n,
        r.0 == push_target(schedule_hint as int, push_hint as int, n as int),
        schedule_hint < n ==> r.1 == None::<usize>,
        schedule_hint >= n ==> r.1 == Some(next_push_hint(push_hint as int, n as int) as usize),
{
    if schedule_hint < n {
        (schedule_hint, None)
    } else {
        let target = push_hint % n;
        let next = (target + 1) % n;
        (target, Some(next))
    }
}

/// The slot visited at step `k` of a circular walk over `n` slots from `start`.
pub fn rotate(start: usize, k: usize, n: usize) -> (r: usize)
    requires
        start < n,
        k < n,
    ensures
        r < n,
        r == rotation(start as int, k as int, n as int),
{
    proof {
        if start + k < n {
            lemma_small_mod((start + k) as nat, n as nat);
        } else {
            lemma_small_mod((start + k - n) as nat, n as nat);
            vstd::arithmetic::div_mod::lemma_mod_sub_multiples_vanish((start + k) as int, n as int);
        }
    }
    if k < n - start {
        start + k
    } else {
        k - (n - start)
    }
}

/// The steal hint to store after a steal that succeeded `offset` steps after `start`.
pub fn advance_steal_hint(start: usize, offset: usize, n: usize) -> (r: usize)
    requires
        start < n,
        offset < n,
    ensures
        r < n,
        r == next_steal_hint(start as int, offset as int, n as int),
{
    let donor = rotate(start, offset, n);
    proof {
        lemma_add_mod_noop(start + offset, 1, n as int);
        if n > 1 {
            lemma_small_mod(1, n as nat);
        }
        lemma_mod_twice((start + offset) as int, n as int);
        if n == 1 {
            assert((donor + 1) % 1 == 0);
            assert((start + offset + 1) % 1 == 0);
        }
    }
    if donor + 1 < n {
        proof { lemma_small_mod((donor + 1) as nat, n as nat); }
        donor + 1
    } else {
        proof { vstd::arithmetic::div_mod::lemma_mod_self_0(n as int); }
        0
    }
}

/// Whether `r` lists, in increasing order, exactly the processors whose
/// readings `(sleeping, last_seen)` taken at `now` show a blocked machine.
pub open spec fn stale_list(readings: Seq<(bool, u64)>, now: u64, r: Seq<usize>) -> bool {
    &&& forall|k: int| 0 <= k < r.len() ==> #[trigger] r[k] < readings.len()
    &&& forall|i: int|
        0 <= i < readings.len() ==> (r.contains(i as usize) <==> blocked(
            #[trigger] readings[i].0,
            readings[i].1,
            now,
        ))
    &&& forall|a: int, b: int| 0 <= a < b < r.len() ==> #[trigger] r[a] < #[trigger] r[b]
}

/// The processors, in increasing order, whose readings `(sleeping,
/// last_seen)` taken at `now` show a blocked machine.
pub fn stale_processors(readings: &Vec<(bool, u64)>, now: u64) -> (r: Vec<usize>)
    ensures
        stale_list(readings@, now, r@),
{
    let mut r: Vec<usize> = Vec::new();
    let mut i: usize = 0;
    while i < readings.len()
        invariant
            i <= readings.len(),
            forall|k: int| 0 <= k < r.len() ==> #[trigger] r[k] < i,
            forall|k: int|
                0 <= k < r.len() ==> blocked(
                    #[trigger] readings@[r[k] as int].0,
                    readings@[r[k] as int].1,
                    now,
                ),
            forall|j: int|
                0 <= j < i && blocked(#[trigger] readings@[j].0, readings@[j].1, now)
                    ==> r@.contains(j as usize),
            forall|a: int, b: int| 0 <= a < b < r.len() ==> #[trigger] r[a] < #[trigger] r[b],
        decreases readings.len() - i,
    {
        let (sleeping, last_seen) = readings[i];
        if is_blocked(sleeping, last_seen, now) {
            let ghost prev = r@;
            r.push(i);
            assert(r@[r.len() - 1] == i);
            assert forall|x: usize| prev.contains(x) implies r@.contains(x) by {
                let k = choose|k: int| 0 <= k < prev.len() && prev[k] == x;
                assert(r@[k] == x);
            }
        }
        i += 1;
    }
    assert forall|j: int| 0 <= j < readings.len() implies (r@.contains(j as usize) <==> blocked(
        #[trigger] readings@[j].0,
        readings@[j].1,
        now,
    )) by {
        if r@.contains(j as usize) {
            let k = choose|k: int| 0 <= k < r.len() && r@[k] == j as usize;
            assert(blocked(readings@[r[k] as int].0, readings@[r[k] as int].1, now));
        }
    }
    r
}

/// Decides whether the sysmon must replace the machine of a processor.
pub fn is_blocked(sleeping: bool, last_seen: u64, now: u64) -> (r: bool)
    ensures
        r == blocked(sleeping, last_seen, now),
{
    !sleeping && now >= BLOCKING_THRESHOLD_MS && last_seen < now - BLOCKING_THRESHOLD_MS
}

/// After `k > 0` pushes of tasks without a schedule hint, starting from any
/// push hint `h`, the hint stands at `(h mod n + k) mod n`.
pub proof fn lemma_push_hint_after(h: int, n: int, k: nat)
    requires
        0 < n,
        0 <= h,
    ensures
        k == 0 ==> push_hint_after(h, n, k) == h,
        k > 0 ==> push_hint_after(h, n, k) == (h % n + k) % n,
    decreases k,
{
    if k > 1 {
        lemma_push_hint_after(h, n, (k - 1) as nat);
        let x = h % n + k - 1;
        lemma_mod_twice(x, n);
        lemma_add_mod_noop(x, 1, n);
        if n > 1 {
            lemma_small_mod(1, n as nat);
        } else {
            assert((x % n + 1) % 1 == 0);
            assert((x + 1) % 1 == 0);
        }
    } else if k == 1 {
        assert(push_hint_after(h, n, 0) == h);
    }
}

/// Reduces a value below `2n` modulo `n`.
proof fn lemma_mod_below_twice(x: int, n: int)
    requires
        0 < n,
        0 <= x < 2 * n,
    ensures
        x % n == if x < n { x } else { x - n },
{
    if x < n {
        lemma_small_mod(x as nat, n as nat);
    } else {
        lemma_small_mod((x - n) as nat, n as nat);
        vstd::arithmetic::div_mod::lemma_mod_add_multiples_vanish(x - n, n);
    }
}

/// A circular walk of `n` steps from any start visits every one of the `n`
/// slots, each exactly once: the global poll and the remote steal leave out
/// no queue and try none twice.
pub proof fn lemma_rotation_covers_all(start: int, n: int)
    requires
        0 < n,
        0 <= start < n,
    ensures
        forall|k: int| 0 <= k < n ==> 0 <= #[trigger] rotation(start, k, n) < n,
        forall|j: int|
            0 <= j < n ==> 0 <= #[trigger] steps_to(start, j, n) < n && rotation(
                start,
                steps_to(start, j, n),
                n,
            ) == j,
        forall|a: int, b: int|
            0 <= a < n && 0 <= b < n && #[trigger] rotation(start, a, n) == #[trigger] rotation(
                start,
                b,
                n,
            ) ==> a == b,
{
    assert forall|k: int| 0 <= k < n implies 0 <= #[trigger] rotation(start, k, n) < n by {
        lemma_mod_below_twice(start + k, n);
    }
    assert forall|j: int| 0 <= j < n implies 0 <= #[trigger] steps_to(start, j, n) < n && rotation(
        start,
        steps_to(start, j, n),
        n,
    ) == j by {
        lemma_mod_below_twice(start + steps_to(start, j, n), n);
    }
    assert forall|a: int, b: int|
        0 <= a < n && 0 <= b < n && #[trigger] rotation(start, a, n) == #[trigger] rotation(start, b, n) implies a == b by {
        lemma_mod_below_twice(start + a, n);
        lemma_mod_below_twice(start + b, n);
    }
}

/// Round-robin placement: the `k`-th of a run of pushes without a schedule
/// hint (counting from zero) goes to the `k`-th slot of a circular walk from
/// the starting push hint (reduced modulo `n`); so `n` such pushes reach
/// every processor once.
pub proof fn lemma_round_robin_placement(schedule_hint: int, h: int, n: int, k: nat)
    requires
        0 < n,
        0 <= h,
        !(0 <= schedule_hint < n),
    ensures
        push_target(schedule_hint, push_hint_after(h, n, k), n) == rotation(h % n, k as int, n),
{
    lemma_push_hint_after(h, n, k);
    lemma_mod_twice(h, n);
    lemma_mod_twice(h % n + k, n);
}

/// Push round trip: `n` pushes of tasks without a schedule hint leave the
/// push hint advanced by `n mod n`, that is where it started (reduced modulo
/// `n`, which changes nothing for a hint that names a processor).
pub proof fn lemma_push_round_trip(h: int, n: int)
    requires
        0 < n,
        0 <= h,
    ensures
        push_hint_after(h, n, n as nat) == h % n,
        h < n ==> push_hint_after(h, n, n as nat) == h,
{
    lemma_push_hint_after(h, n, n as nat);
    vstd::arithmetic::div_mod::lemma_mod_add_multiples_vanish(h % n, n);
    lemma_mod_twice(h, n);
    if h < n {
        lemma_small_mod(h as nat, n as nat);
    }
}

/// Steal rotation: after a steal that finds its donor `o1` steps after the
/// hint `s`, and a second one that finds its donor `o2` steps after the new
/// hint, the hint has moved `o1 + o2 + 2` slots: it points just past the
/// second donor, which itself lies past the first one in the walk.
pub proof fn lemma_steal_rotation(s: int, o1: int, o2: int, n: int)
    requires
        0 < n,
        0 <= s < n,
        0 <= o1 < n,
        0 <= o2 < n,
    ensures
        rotation(next_steal_hint(s, o1, n), o2, n) == (s + o1 + 1 + o2) % n,
        next_steal_hint(next_steal_hint(s, o1, n), o2, n) == (s + o1 + o2 + 2) % n,
        next_steal_hint(next_steal_hint(s, o1, n), o2, n) == (rotation(
            next_steal_hint(s, o1, n),
            o2,
            n,
        ) + 1) % n,
{
    let h1 = next_steal_hint(s, o1, n);
    lemma_add_mod_noop(s + o1 + 1, o2, n);
    lemma_add_mod_noop(s + o1 + 1, o2 + 1, n);
    lemma_add_mod_noop(s + o1 + 1 + o2, 1, n);
    lemma_mod_twice(o2, n);
    lemma_mod_twice(o2 + 1, n);
    lemma_mod_twice(s + o1 + 1 + o2, n);
    lemma_small_mod(o2 as nat, n as nat);
    if o2 + 1 < n {
        lemma_small_mod((o2 + 1) as nat, n as nat);
    }
    if n > 1 {
        lemma_small_mod(1, n as nat);
    }
    lemma_add_mod_noop(h1, o2 + 1, n);
    lemma_add_mod_noop(h1, o2, n);
    lemma_add_mod_noop(h1 + o2, 1, n);
    assert(h1 % n == h1) by {
        lemma_mod_twice(s + o1 + 1, n);
    }
}

} // verus!
