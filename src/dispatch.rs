//! The decisions of a machine's main loop: which source of work to try next,
//! given what the previous attempt found.

use vstd::prelude::*;

use crate::routing::MAX_RUNS;

verus! {

/// What a machine does next.
#[derive(PartialEq, Eq, Structural, Debug, Clone, Copy)]
pub enum Stage {
    /// Record a heartbeat; a new round begins.
    Heartbeat,
    /// Poll the global queues before the local worker, after a long run of tasks.
    ThrottledGlobal,
    /// Pop from the local worker.
    Local,
    /// Steal from the worker of the machine this one replaced.
    Inherited,
    /// Poll the global queues, own processor first.
    Global,
    /// Steal from the other machines.
    Remote,
    /// Sleep until the processor is woken.
    Sleep,
    /// Poll the global queues after waking.
    WokenGlobal,
}

/// The state of a machine's main loop.
#[derive(PartialEq, Eq, Structural, Debug, Clone, Copy)]
pub struct Dispatch {
    /// Tasks run since the global queues were last polled.
    pub run_counter: u64,
    pub stage: Stage,
}

/// Whether `s` is an attempt to take a task.
pub open spec fn is_source(s: Stage) -> bool {
    s != Stage::Heartbeat && s != Stage::Sleep
}

/// The next state once the action of `d` is done; `found` tells, for a
/// source, whether it yielded a task (which was then run).
pub open spec fn step(d: Dispatch, found: bool) -> Dispatch {
    if is_source(d.stage) && found {
        Dispatch { run_counter: (d.run_counter + 1) as u64, stage: Stage::Heartbeat }
    } else {
        match d.stage {
            Stage::Heartbeat => if d.run_counter > MAX_RUNS {
                Dispatch { run_counter: 0, stage: Stage::ThrottledGlobal }
            } else {
                Dispatch { stage: Stage::Local, ..d }
            },
            Stage::ThrottledGlobal => Dispatch { stage: Stage::Local, ..d },
            Stage::Local => Dispatch { stage: Stage::Inherited, ..d },
            Stage::Inherited => Dispatch { run_counter: 0, stage: Stage::Global },
            Stage::Global => Dispatch { stage: Stage::Remote, ..d },
            Stage::Remote => Dispatch { stage: Stage::Sleep, ..d },
            Stage::Sleep => Dispatch { run_counter: 0, stage: Stage::WokenGlobal },
            Stage::WokenGlobal => Dispatch { stage: Stage::Heartbeat, ..d },
        }
    }
}

/// The state after `k` actions of which none yielded a task.
pub open spec fn idle_steps(d: Dispatch, k: nat) -> Dispatch
    decreases k,
{
    if k == 0 {
        d
    } else {
        idle_steps(step(d, false), (k - 1) as nat)
    }
}

impl Dispatch {
    /// The loop never runs more than one task past the throttle threshold
    /// without polling the global queues: a count above it is only seen at a
    /// heartbeat, which then sends the machine to the global queues.
    pub open spec fn wf(&self) -> bool {
        &&& self.run_counter <= MAX_RUNS + 1
        &&& self.stage != Stage::Heartbeat ==> self.run_counter <= MAX_RUNS
    }

    /// The state a machine starts in: a heartbeat first, no task run yet.
    pub fn new() -> (r: Dispatch)
        ensures
            r.wf(),
            r == (Dispatch { run_counter: 0, stage: Stage::Heartbeat }),
    {
        Dispatch { run_counter: 0, stage: Stage::Heartbeat }
    }

    /// What to do now.
    pub fn stage(&self) -> (r: Stage)
        ensures
            r == self.stage,
    {
        self.stage
    }

    /// Moves on once the current action is done.
    pub fn advance(&mut self, found: bool)
        requires
            old(self).wf(),
        ensures
            final(self).wf(),
            *final(self) == step(*old(self), found),
    {
        let stage = self.stage;
        if found && stage != Stage::Heartbeat && stage != Stage::Sleep {
            self.run_counter = self.run_counter + 1;
            self.stage = Stage::Heartbeat;
            return;
        }
        match stage {
            Stage::Heartbeat => {
                if self.run_counter > MAX_RUNS {
                    self.run_counter = 0;
                    self.stage = Stage::ThrottledGlobal;
                } else {
                    self.stage = Stage::Local;
                }
            },
            Stage::ThrottledGlobal => {
                self.stage = Stage::Local;
            },
            Stage::Local => {
                self.stage = Stage::Inherited;
            },
            Stage::Inherited => {
                self.run_counter = 0;
                self.stage = Stage::Global;
            },
            Stage::Global => {
                self.stage = Stage::Remote;
            },
            Stage::Remote => {
                self.stage = Stage::Sleep;
            },
            Stage::Sleep => {
                self.run_counter = 0;
                self.stage = Stage::WokenGlobal;
            },
            Stage::WokenGlobal => {
                self.stage = Stage::Heartbeat;
            },
        }
    }
}

/// A machine that finds every source empty goes to sleep within six actions
/// of the start of a round, after trying its local worker, the replaced
/// machine's worker, the global queues and the other machines.
pub proof fn lemma_idle_machine_sleeps(d: Dispatch)
    requires
        d.wf(),
        d.stage == Stage::Heartbeat,
    ensures
        d.run_counter > MAX_RUNS ==> idle_steps(d, 6).stage == Stage::Sleep,
        d.run_counter <= MAX_RUNS ==> idle_steps(d, 5).stage == Stage::Sleep,
        forall|k: nat|
            k < 5 ==> #[trigger] idle_steps(d, k).stage != Stage::Sleep,
{
    reveal_with_fuel(idle_steps, 7);
    assert forall|k: nat| k < 5 implies #[trigger] idle_steps(d, k).stage != Stage::Sleep by {
        if k == 0 {} else if k == 1 {} else if k == 2 {} else if k == 3 {} else {}
    }
}

/// After a long run of tasks the global queues are polled before anything
/// else: a round that starts with more than `MAX_RUNS` tasks run in a row
/// begins with a global poll and resets the count.
pub proof fn lemma_throttle_polls_global_first(d: Dispatch)
    requires
        d.wf(),
        d.stage == Stage::Heartbeat,
        d.run_counter > MAX_RUNS,
    ensures
        step(d, false) == (Dispatch { run_counter: 0, stage: Stage::ThrottledGlobal }),
{
}

} // verus!
