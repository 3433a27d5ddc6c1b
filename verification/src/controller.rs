//! The controller: a bounded count of swap files and the policy that moves
//! it.
//!
//! The files of the pool are numbered from one.  With a count of `n` the pool
//! holds the files `1..=n`: growth adds the file `n + 1`, shrinking takes the
//! file `n` away.

use vstd::prelude::*;
use crate::config::{Config, ConfigError};
use crate::memory::MemoryReading;
use crate::ops::{growth_ops, push_growth, push_shrink, shrink_ops, Op};

verus! {

/// What one sample calls for.
#[derive(Clone, Copy, Debug, PartialEq, Eq, Structural)]
pub enum Decision {
    /// Leave the pool as it is.
    Idle,
    /// Add one file.
    Grow,
    /// Take one file away.
    Shrink,
    /// Add one file, then take it away again: the sample asks for growth, and
    /// the grown pool is still eligible for shrinking.
    GrowThenShrink,
}

/// Why growth or shrinking is refused.
#[derive(Clone, Copy, Debug, PartialEq, Eq, Structural)]
pub enum PoolError {
    /// The pool already holds as many files as the ceiling allows.
    AtCeiling,
    /// The pool holds no more files than the floor demands.
    AtFloor,
}

/// What the loop has seen at the top of an iteration.
#[derive(Clone, Copy, Debug, PartialEq, Eq, Structural)]
pub enum Event {
    /// The sentinel is gone.
    SentinelGone,
    /// The sentinel is there, the interval has passed, and memory was sampled.
    Sample(MemoryReading),
}

/// What the loop does next.
#[derive(Debug, PartialEq, Eq)]
pub enum Step {
    /// Leave the loop.  No operation is issued: the files of the pool stay as
    /// they are, swapped on.
    Exit,
    /// Carry out the operations in order, then go round again.
    Continue(Vec<Op>),
}

impl Step {
    /// The operations that a step issues.
    pub open spec fn issued(self) -> Seq<Op> {
        match self {
            Step::Exit => Seq::empty(),
            Step::Continue(ops) => ops@,
        }
    }
}

/// The controller as its contracts see it: the configuration and the number
/// of files in the pool.
pub struct ControllerState {
    pub config: Config,
    pub allocated: u8,
}

impl ControllerState {
    /// The count lies between floor and ceiling of a valid configuration.
    pub open spec fn wf(self) -> bool {
        &&& self.config.valid()
        &&& self.config.min_count <= self.allocated <= self.config.max_count
    }

    /// The state with another count.
    pub open spec fn with_count(self, allocated: u8) -> ControllerState {
        ControllerState { config: self.config, allocated }
    }

    /// The percentage that decides on growth: free RAM while the pool is
    /// empty, free swap otherwise.
    pub open spec fn pressure_gauge(self, reading: MemoryReading) -> Option<u8> {
        if self.allocated == 0 {
            reading.ram_percent()
        } else {
            reading.swap_percent()
        }
    }

    /// Growth is due when the gauge is below the growth threshold and the
    /// pool is below its ceiling.  A malformed sample asks for nothing.
    pub open spec fn growth_due(self, reading: MemoryReading) -> bool {
        &&& self.allocated < self.config.max_count
        &&& self.pressure_gauge(reading) matches Some(p)
        &&& p < self.config.free_perc
    }

    /// Shrinking is due when the pool holds more than two files and more than
    /// the floor, and free swap is below the shrink threshold.
    pub open spec fn shrink_due(self, reading: MemoryReading) -> bool {
        &&& self.allocated > 2
        &&& self.allocated > self.config.min_count
        &&& reading.swap_percent() matches Some(p)
        &&& p < self.config.remove_free_perc
    }

    /// The state after growth by one file.
    pub open spec fn grown(self) -> ControllerState
        recommends
            self.allocated < self.config.max_count,
    {
        self.with_count((self.allocated + 1) as u8)
    }

    /// The state after shrinking by one file.
    pub open spec fn shrunk(self) -> ControllerState
        recommends
            self.allocated > self.config.min_count,
    {
        self.with_count((self.allocated - 1) as u8)
    }

    /// The decision on one sample.  Growth is judged first; shrinking is
    /// judged on the count that growth has left.  An empty pool is judged on
    /// free RAM alone and is never shrunk.
    pub open spec fn decide(self, reading: MemoryReading) -> Decision {
        if self.allocated == 0 {
            if self.growth_due(reading) {
                Decision::Grow
            } else {
                Decision::Idle
            }
        } else if self.growth_due(reading) {
            if self.grown().shrink_due(reading) {
                Decision::GrowThenShrink
            } else {
                Decision::Grow
            }
        } else if self.shrink_due(reading) {
            Decision::Shrink
        } else {
            Decision::Idle
        }
    }

    /// The state that carrying out a decision leads to.
    pub open spec fn after(self, decision: Decision) -> ControllerState {
        match decision {
            Decision::Idle => self,
            Decision::Grow => self.grown(),
            Decision::Shrink => self.shrunk(),
            Decision::GrowThenShrink => self,
        }
    }

    /// The operations that carry out a decision.
    pub open spec fn ops_for(self, decision: Decision) -> Seq<Op> {
        match decision {
            Decision::Idle => Seq::empty(),
            Decision::Grow => growth_ops(self.grown().allocated),
            Decision::Shrink => shrink_ops(self.allocated),
            Decision::GrowThenShrink => growth_ops(self.grown().allocated) + shrink_ops(
                self.grown().allocated,
            ),
        }
    }

    /// The state after one tick on a sample.
    pub open spec fn after_tick(self, reading: MemoryReading) -> ControllerState {
        self.after(self.decide(reading))
    }

    /// The operations of one tick on a sample.
    pub open spec fn tick_ops(self, reading: MemoryReading) -> Seq<Op> {
        self.ops_for(self.decide(reading))
    }

    /// The state after one turn of the loop: a sample is ticked on, and the
    /// loss of the sentinel changes nothing.
    pub open spec fn after_step(self, event: Event) -> ControllerState {
        match event {
            Event::SentinelGone => self,
            Event::Sample(reading) => self.after_tick(reading),
        }
    }

    /// The operations that one turn of the loop issues: those of the tick on
    /// a sample, none at all once the sentinel is gone.
    pub open spec fn step_ops(self, event: Event) -> Seq<Op> {
        match event {
            Event::SentinelGone => Seq::empty(),
            Event::Sample(reading) => self.tick_ops(reading),
        }
    }

    /// The state after a run of ticks, one on each sample in turn.
    pub open spec fn after_ticks(self, readings: Seq<MemoryReading>) -> ControllerState
        decreases readings.len(),
    {
        if readings.len() == 0 {
            self
        } else {
            self.after_ticks(readings.drop_last()).after_tick(readings.last())
        }
    }

    /// The operations of a run of ticks, in the order of their issue.
    pub open spec fn ticks_ops(self, readings: Seq<MemoryReading>) -> Seq<Op>
        decreases readings.len(),
    {
        if readings.len() == 0 {
            Seq::empty()
        } else {
            self.ticks_ops(readings.drop_last()) + self.after_ticks(
                readings.drop_last(),
            ).tick_ops(readings.last())
        }
    }
}

/// The operations of startup that create the files `1..=count`.
pub open spec fn floor_ops(count: nat) -> Seq<Op>
    recommends
        count <= u8::MAX,
    decreases count,
{
    if count == 0 {
        Seq::empty()
    } else {
        floor_ops((count - 1) as nat) + growth_ops(count as u8)
    }
}

/// The operations of startup: the pool directory first, then the files of
/// the floor in rising order, the sentinel last.
pub open spec fn startup_ops(min_count: u8) -> Seq<Op> {
    seq![Op::EnsurePoolDir] + floor_ops(min_count as nat) + seq![Op::CreateSentinel]
}

/// The swap pool controller.
#[derive(Debug)]
pub struct Controller {
    config: Config,
    allocated: u8,
}

impl Controller {
    /// The controller as its contracts see it.
    pub closed spec fn view(self) -> ControllerState {
        ControllerState { config: self.config, allocated: self.allocated }
    }

    #[verifier::type_invariant]
    spec fn inv(self) -> bool {
        self@.wf()
    }

    /// Starts a controller: checks the configuration and plans the creation
    /// of the pool directory, of the files of the floor and of the sentinel.
    /// The count starts at the floor.
    pub fn startup(config: Config) -> (res: Result<(Controller, Vec<Op>), ConfigError>)
        ensures
            res is Ok <==> config.valid(),
            res matches Err(e) ==> config.defect() == Some(e),
            res matches Ok((controller, ops)) ==> {
                &&& controller@ == (ControllerState { config, allocated: config.min_count })
                &&& controller@.wf()
                &&& ops@ == startup_ops(config.min_count)
            },
    {
        match config.check() {
            Err(e) => {
                return Err(e);
            },
            Ok(()) => {},
        }
        let mut ops: Vec<Op> = Vec::new();
        ops.push(Op::EnsurePoolDir);
        let mut created: u8 = 0;
        while created < config.min_count
            invariant
                created <= config.min_count,
                ops@ == seq![Op::EnsurePoolDir] + floor_ops(created as nat),
            decreases config.min_count - created,
        {
            created = created + 1;
            push_growth(&mut ops, created);
        }
        ops.push(Op::CreateSentinel);
        Ok((Controller { config, allocated: created }, ops))
    }

    /// The number of files in the pool.
    pub fn allocated(&self) -> (count: u8)
        ensures
            count == self@.allocated,
            self@.wf(),
    {
        proof {
            use_type_invariant(self);
        }
        self.allocated
    }

    /// The configuration that the controller was started with.
    pub fn config(&self) -> (config: Config)
        ensures
            config == self@.config,
            self@.wf(),
    {
        proof {
            use_type_invariant(self);
        }
        self.config
    }

    /// Whether growth is due on a sample.
    fn growth_due(&self, reading: &MemoryReading) -> (due: bool)
        ensures
            due == self@.growth_due(*reading),
    {
        let gauge = if self.allocated == 0 {
            reading.get_free_ram_perc()
        } else {
            reading.get_free_swap_perc()
        };
        match gauge {
            Some(perc) => self.allocated < self.config.max_count && perc < self.config.free_perc,
            None => false,
        }
    }

    /// Whether shrinking would be due on a sample if the pool held `count`
    /// files.
    fn shrink_due_at(&self, count: u8, reading: &MemoryReading) -> (due: bool)
        ensures
            due == self@.with_count(count).shrink_due(*reading),
    {
        match reading.get_free_swap_perc() {
            Some(perc) => count > 2 && count > self.config.min_count && perc
                < self.config.remove_free_perc,
            None => false,
        }
    }

    /// Decides what a sample calls for.  Nothing is changed.
    pub fn decide(&self, reading: &MemoryReading) -> (decision: Decision)
        ensures
            decision == self@.decide(*reading),
    {
        let grow = self.growth_due(reading);
        if self.allocated == 0 {
            if grow {
                Decision::Grow
            } else {
                Decision::Idle
            }
        } else if grow {
            if self.shrink_due_at(self.allocated + 1, reading) {
                Decision::GrowThenShrink
            } else {
                Decision::Grow
            }
        } else if self.shrink_due_at(self.allocated, reading) {
            Decision::Shrink
        } else {
            Decision::Idle
        }
    }

    /// Growth below the ceiling: counts the new file and appends its
    /// operations.
    fn grow(&mut self, ops: &mut Vec<Op>)
        requires
            old(self)@.allocated < old(self)@.config.max_count,
        ensures
            final(self)@ == old(self)@.grown(),
            final(ops)@ == old(ops)@ + growth_ops(old(self)@.grown().allocated),
    {
        proof {
            use_type_invariant(&*self);
        }
        self.allocated = self.allocated + 1;
        push_growth(ops, self.allocated);
    }

    /// Shrinking above the floor: appends the operations on the last file and
    /// counts it out.
    fn shrink(&mut self, ops: &mut Vec<Op>)
        requires
            old(self)@.allocated > old(self)@.config.min_count,
        ensures
            final(self)@ == old(self)@.shrunk(),
            final(ops)@ == old(ops)@ + shrink_ops(old(self)@.allocated),
    {
        proof {
            use_type_invariant(&*self);
        }
        push_shrink(ops, self.allocated);
        self.allocated = self.allocated - 1;
    }

    /// Growth: adds the file after the last one and returns what has to be
    /// done for it.  At the ceiling nothing is changed.
    pub fn create_swapfile(&mut self) -> (res: Result<Vec<Op>, PoolError>)
        ensures
            final(self)@.wf(),
            res is Ok <==> old(self)@.allocated < old(self)@.config.max_count,
            res matches Ok(ops) ==> {
                &&& final(self)@ == old(self)@.grown()
                &&& final(self)@.allocated == old(self)@.allocated + 1
                &&& ops@ == growth_ops(final(self)@.allocated)
            },
            res matches Err(e) ==> e == PoolError::AtCeiling && final(self)@ == old(self)@,
    {
        proof {
            use_type_invariant(&*self);
        }
        if self.allocated >= self.config.max_count {
            return Err(PoolError::AtCeiling);
        }
        let mut ops: Vec<Op> = Vec::new();
        self.grow(&mut ops);
        Ok(ops)
    }

    /// Shrinking: takes the last file away and returns what has to be done
    /// for it.  At the floor, and so in an empty pool, nothing is changed.
    pub fn destroy_swapfile(&mut self) -> (res: Result<Vec<Op>, PoolError>)
        ensures
            final(self)@.wf(),
            res is Ok <==> old(self)@.allocated > old(self)@.config.min_count,
            res matches Ok(ops) ==> {
                &&& final(self)@ == old(self)@.shrunk()
                &&& final(self)@.allocated == old(self)@.allocated - 1
                &&& ops@ == shrink_ops(old(self)@.allocated)
            },
            res matches Err(e) ==> e == PoolError::AtFloor && final(self)@ == old(self)@,
    {
        proof {
            use_type_invariant(&*self);
        }
        if self.allocated <= self.config.min_count {
            return Err(PoolError::AtFloor);
        }
        let mut ops: Vec<Op> = Vec::new();
        self.shrink(&mut ops);
        Ok(ops)
    }

    /// One tick: decides on the sample, moves the count and returns the
    /// operations to carry out, in order.  The count changes by one at most
    /// and stays between floor and ceiling.
    pub fn tick(&mut self, reading: &MemoryReading) -> (ops: Vec<Op>)
        ensures
            final(self)@ == old(self)@.after_tick(*reading),
            ops@ == old(self)@.tick_ops(*reading),
            final(self)@.wf(),
            final(self)@.config == old(self)@.config,
            old(self)@.allocated - 1 <= final(self)@.allocated <= old(self)@.allocated + 1,
            final(self)@.allocated <= final(self)@.config.max_count,
    {
        proof {
            use_type_invariant(&*self);
        }
        let mut ops: Vec<Op> = Vec::new();
        match self.decide(reading) {
            Decision::Idle => {},
            Decision::Grow => {
                self.grow(&mut ops);
            },
            Decision::Shrink => {
                self.shrink(&mut ops);
            },
            Decision::GrowThenShrink => {
                self.grow(&mut ops);
                self.shrink(&mut ops);
            },
        }
        ops
    }

    /// One turn of the loop.  Without the sentinel the loop ends: nothing is
    /// issued and nothing is changed.  With it, the sample is ticked on.
    pub fn step(&mut self, event: Event) -> (step: Step)
        ensures
            step is Exit <==> event is SentinelGone,
            step.issued() == old(self)@.step_ops(event),
            final(self)@ == old(self)@.after_step(event),
            final(self)@.wf(),
    {
        proof {
            use_type_invariant(&*self);
        }
        match event {
            Event::SentinelGone => Step::Exit,
            Event::Sample(reading) => Step::Continue(self.tick(&reading)),
        }
    }
}

/// A tick moves the count by one at most and keeps it between floor and
/// ceiling; the configuration stays.
pub proof fn lemma_tick_bounded(state: ControllerState, reading: MemoryReading)
    requires
        state.wf(),
    ensures
        state.after_tick(reading).wf(),
        state.after_tick(reading).config == state.config,
        state.allocated - 1 <= state.after_tick(reading).allocated <= state.allocated + 1,
        0 <= state.after_tick(reading).allocated <= state.config.max_count,
{
}

/// However many ticks have run, the count lies between floor and ceiling.
pub proof fn lemma_ticks_bounded(state: ControllerState, readings: Seq<MemoryReading>)
    requires
        state.wf(),
    ensures
        state.after_ticks(readings).wf(),
        state.after_ticks(readings).config == state.config,
    decreases readings.len(),
{
    if readings.len() > 0 {
        lemma_ticks_bounded(state, readings.drop_last());
        lemma_tick_bounded(state.after_ticks(readings.drop_last()), readings.last());
    }
}

/// At the ceiling no sample makes the pool grow.
pub proof fn lemma_no_growth_at_ceiling(state: ControllerState, reading: MemoryReading)
    requires
        state.wf(),
        state.allocated == state.config.max_count,
    ensures
        !state.growth_due(reading),
        state.decide(reading) != Decision::Grow,
        state.decide(reading) != Decision::GrowThenShrink,
        state.after_tick(reading).allocated <= state.allocated,
{
}

/// At the floor the count never drops.  A sample that does not ask for
/// growth leaves the pool alone, whatever the free swap; one that does may
/// have the file that it adds taken away again in the same tick, and no
/// other.
pub proof fn lemma_no_shrink_at_floor(state: ControllerState, reading: MemoryReading)
    requires
        state.wf(),
        state.allocated == state.config.min_count,
    ensures
        state.decide(reading) != Decision::Shrink,
        !state.growth_due(reading) ==> state.decide(reading) == Decision::Idle,
        state.after_tick(reading).allocated >= state.allocated,
{
}

/// A pool of two files or fewer keeps them: no tick lowers its count, and
/// with fewer than two files nothing is taken away at all.
pub proof fn lemma_cushion_of_two(state: ControllerState, reading: MemoryReading)
    requires
        state.wf(),
        state.allocated <= 2,
    ensures
        state.decide(reading) != Decision::Shrink,
        state.after_tick(reading).allocated >= state.allocated,
        state.allocated < 2 ==> state.decide(reading) != Decision::GrowThenShrink,
{
}

/// A pool that holds a file is left alone while free swap is at or above
/// the shrink threshold, and does not grow while free swap is at or above
/// the growth threshold.
pub proof fn lemma_thresholds(state: ControllerState, reading: MemoryReading, free: u8)
    requires
        state.wf(),
        state.allocated > 0,
        reading.swap_percent() == Some(free),
    ensures
        free >= state.config.remove_free_perc ==> state.decide(reading) == Decision::Idle,
        free >= state.config.free_perc ==> !state.growth_due(reading),
        free >= state.config.free_perc ==> state.after_tick(reading).allocated
            <= state.allocated,
{
}

/// A sample that makes a filled pool grow is below the shrink threshold as
/// well.  Where the grown pool holds more than two files and more than the
/// floor, the file just added is taken away in the same tick; otherwise it
/// stays.
pub proof fn lemma_growth_past_cushion_is_undone(state: ControllerState, reading: MemoryReading)
    requires
        state.wf(),
        state.allocated > 0,
        state.growth_due(reading),
    ensures
        state.decide(reading) == (if state.allocated + 1 > 2 && state.allocated + 1
            > state.config.min_count {
            Decision::GrowThenShrink
        } else {
            Decision::Grow
        }),
{
}

/// A malformed sample changes nothing.
pub proof fn lemma_malformed_sample_is_idle(state: ControllerState, reading: MemoryReading)
    requires
        state.pressure_gauge(reading) is None,
    ensures
        state.decide(reading) == Decision::Idle,
        state.after_tick(reading) == state,
        state.tick_ops(reading) == Seq::<Op>::empty(),
{
}

} // verus!
