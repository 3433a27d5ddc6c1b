//! A model of the host as far as the pool touches it, and the proof that the
//! controller keeps the pool on the host in step with its count.
//!
//! The model says what each operation does when it succeeds.  Nothing here
//! runs: it is the yardstick that the operation sequences are held to.

use vstd::prelude::*;
use crate::config::Config;
use crate::controller::{
    floor_ops, lemma_ticks_bounded, startup_ops, ControllerState, Decision, Event,
};
use crate::memory::MemoryReading;
use crate::ops::{growth_ops, shrink_ops, Op, Status};

verus! {

/// The indices `1..=count`.
pub open spec fn first_files(count: int) -> Set<int> {
    Set::new(|i: int| 1 <= i <= count)
}

/// What is on the host.
pub struct Host {
    /// The pool directory exists.
    pub pool_dir: bool,
    /// The sentinel exists.
    pub sentinel: bool,
    /// The files present in the pool directory, by index.
    pub files: Set<int>,
    /// The files that have been formatted as swap space.
    pub formatted: Set<int>,
    /// The files that are swapped on.
    pub active: Set<int>,
}

impl Host {
    /// A host without any file of the pool; the pool directory may be there
    /// or not.
    pub open spec fn fresh(self) -> bool {
        &&& self.files == Set::<int>::empty()
        &&& self.formatted == Set::<int>::empty()
        &&& self.active == Set::<int>::empty()
    }

    /// The pool directory holds exactly the files `1..=count`, each of them
    /// formatted and swapped on.
    pub open spec fn holds(self, count: int) -> bool {
        &&& self.pool_dir
        &&& self.files == first_files(count)
        &&& self.formatted == first_files(count)
        &&& self.active == first_files(count)
    }

    /// Whether an operation is in order on this host.  A file is created in
    /// an existing directory under an unused name, formatted once and before
    /// it is swapped on, swapped off before it is removed.
    pub open spec fn admits(self, op: Op) -> bool {
        match op {
            Op::Notify(_) => true,
            Op::EnsurePoolDir => true,
            Op::CreateSentinel => true,
            Op::CreateFile(i) => self.pool_dir && !self.files.contains(i as int),
            Op::Format(i) => self.files.contains(i as int) && !self.formatted.contains(i as int),
            Op::Activate(i) => self.formatted.contains(i as int) && !self.active.contains(
                i as int,
            ),
            Op::Deactivate(i) => self.active.contains(i as int),
            Op::RemoveFile(i) => self.files.contains(i as int) && !self.active.contains(i as int),
        }
    }

    /// The host after an operation that succeeded.
    pub open spec fn apply(self, op: Op) -> Host {
        match op {
            Op::Notify(_) => self,
            Op::EnsurePoolDir => Host { pool_dir: true, ..self },
            Op::CreateSentinel => Host { sentinel: true, ..self },
            Op::CreateFile(i) => Host { files: self.files.insert(i as int), ..self },
            Op::Format(i) => Host { formatted: self.formatted.insert(i as int), ..self },
            Op::Activate(i) => Host { active: self.active.insert(i as int), ..self },
            Op::Deactivate(i) => Host { active: self.active.remove(i as int), ..self },
            Op::RemoveFile(i) => Host {
                files: self.files.remove(i as int),
                formatted: self.formatted.remove(i as int),
                ..self
            },
        }
    }

    /// The host after a sequence of operations, carried out in order.
    pub open spec fn run(self, ops: Seq<Op>) -> Host
        decreases ops.len(),
    {
        if ops.len() == 0 {
            self
        } else {
            self.run(ops.drop_last()).apply(ops.last())
        }
    }

    /// Whether each operation of a sequence is in order at the moment it is
    /// carried out.
    pub open spec fn admits_all(self, ops: Seq<Op>) -> bool
        decreases ops.len(),
    {
        if ops.len() == 0 {
            true
        } else {
            self.admits_all(ops.drop_last()) && self.run(ops.drop_last()).admits(ops.last())
        }
    }
}

/// Running one more operation is running the sequence and then the operation.
pub proof fn lemma_run_push(host: Host, ops: Seq<Op>, op: Op)
    ensures
        host.run(ops.push(op)) == host.run(ops).apply(op),
        host.admits_all(ops.push(op)) == (host.admits_all(ops) && host.run(ops).admits(op)),
{
    assert(ops.push(op).drop_last() =~= ops);
}

/// Running a concatenation is running its parts one after the other.
pub proof fn lemma_run_concat(host: Host, first: Seq<Op>, second: Seq<Op>)
    ensures
        host.run(first + second) == host.run(first).run(second),
        host.admits_all(first + second) == (host.admits_all(first) && host.run(
            first,
        ).admits_all(second)),
    decreases second.len(),
{
    if second.len() == 0 {
        assert(first + second =~= first);
    } else {
        lemma_run_concat(host, first, second.drop_last());
        assert((first + second).drop_last() =~= first + second.drop_last());
    }
}

/// Growth on a host that holds the files `1..=count` is in order and leaves
/// exactly the files `1..=count + 1`, the new one formatted once and swapped
/// on.
pub proof fn lemma_growth_on_host(host: Host, count: u8)
    requires
        host.holds(count as int),
        count < u8::MAX,
    ensures
        host.admits_all(growth_ops((count + 1) as u8)),
        host.run(growth_ops((count + 1) as u8)).holds(count + 1),
        host.run(growth_ops((count + 1) as u8)).sentinel == host.sentinel,
{
    let index = (count + 1) as u8;
    let s0: Seq<Op> = Seq::empty();
    let s1 = s0.push(Op::Notify(Status::Allocating));
    let s2 = s1.push(Op::CreateFile(index));
    let s3 = s2.push(Op::Format(index));
    let s4 = s3.push(Op::Activate(index));
    let s5 = s4.push(Op::Notify(Status::Monitoring));
    assert(growth_ops(index) =~= s5);
    lemma_run_push(host, s0, Op::Notify(Status::Allocating));
    lemma_run_push(host, s1, Op::CreateFile(index));
    lemma_run_push(host, s2, Op::Format(index));
    lemma_run_push(host, s3, Op::Activate(index));
    lemma_run_push(host, s4, Op::Notify(Status::Monitoring));
    let end = host.run(s5);
    assert(end.files =~= first_files(count + 1));
    assert(end.formatted =~= first_files(count + 1));
    assert(end.active =~= first_files(count + 1));
}

/// Shrinking on a host that holds the files `1..=count` is in order and
/// leaves exactly the files `1..=count - 1`: the last file is swapped off
/// before it is removed.
pub proof fn lemma_shrink_on_host(host: Host, count: u8)
    requires
        host.holds(count as int),
        count > 0,
    ensures
        host.admits_all(shrink_ops(count)),
        host.run(shrink_ops(count)).holds(count - 1),
        host.run(shrink_ops(count)).sentinel == host.sentinel,
{
    let s0: Seq<Op> = Seq::empty();
    let s1 = s0.push(Op::Notify(Status::Deallocating));
    let s2 = s1.push(Op::Deactivate(count));
    let s3 = s2.push(Op::RemoveFile(count));
    let s4 = s3.push(Op::Notify(Status::Monitoring));
    assert(shrink_ops(count) =~= s4);
    lemma_run_push(host, s0, Op::Notify(Status::Deallocating));
    lemma_run_push(host, s1, Op::Deactivate(count));
    lemma_run_push(host, s2, Op::RemoveFile(count));
    lemma_run_push(host, s3, Op::Notify(Status::Monitoring));
    let end = host.run(s4);
    assert(end.files =~= first_files(count - 1));
    assert(end.formatted =~= first_files(count - 1));
    assert(end.active =~= first_files(count - 1));
}

/// Whatever is decided, the operations that carry it out are in order on a
/// host that holds exactly the files counted, and leave exactly the files of
/// the new count.
pub proof fn lemma_decision_keeps_pool_exact(
    host: Host,
    state: ControllerState,
    reading: MemoryReading,
)
    requires
        state.wf(),
        host.holds(state.allocated as int),
    ensures
        host.admits_all(state.tick_ops(reading)),
        host.run(state.tick_ops(reading)).holds(state.after_tick(reading).allocated as int),
        host.run(state.tick_ops(reading)).sentinel == host.sentinel,
{
    match state.decide(reading) {
        Decision::Idle => {},
        Decision::Grow => {
            lemma_growth_on_host(host, state.allocated);
        },
        Decision::Shrink => {
            lemma_shrink_on_host(host, state.allocated);
        },
        Decision::GrowThenShrink => {
            let grown = state.grown().allocated;
            lemma_growth_on_host(host, state.allocated);
            lemma_shrink_on_host(host.run(growth_ops(grown)), grown);
            lemma_run_concat(host, growth_ops(grown), shrink_ops(grown));
        },
    }
}

/// Creating the files of the floor on a fresh host with a pool directory is
/// in order and leaves exactly the files `1..=count`.
pub proof fn lemma_floor_on_host(host: Host, count: u8)
    requires
        host.holds(0),
    ensures
        host.admits_all(floor_ops(count as nat)),
        host.run(floor_ops(count as nat)).holds(count as int),
        host.run(floor_ops(count as nat)).sentinel == host.sentinel,
    decreases count,
{
    if count > 0 {
        let before = (count - 1) as u8;
        lemma_floor_on_host(host, before);
        lemma_growth_on_host(host.run(floor_ops(before as nat)), before);
        lemma_run_concat(host, floor_ops(before as nat), growth_ops(count));
    }
}

/// Startup on a fresh host is in order and leaves the pool directory with
/// exactly the files `1..=min_count`, all swapped on, and the sentinel.
pub proof fn lemma_startup_on_host(host: Host, min_count: u8)
    requires
        host.fresh(),
    ensures
        host.admits_all(startup_ops(min_count)),
        host.run(startup_ops(min_count)).holds(min_count as int),
        host.run(startup_ops(min_count)).sentinel,
{
    let dir = seq![Op::EnsurePoolDir];
    let floor = floor_ops(min_count as nat);
    let mark = seq![Op::CreateSentinel];
    lemma_run_push(host, Seq::empty(), Op::EnsurePoolDir);
    let ready = host.run(dir);
    assert(ready.files =~= first_files(0));
    lemma_floor_on_host(ready, min_count);
    lemma_run_concat(host, dir, floor);
    lemma_run_push(host, dir + floor, Op::CreateSentinel);
    assert((dir + floor).push(Op::CreateSentinel) =~= dir + floor + mark);
}

/// However many ticks have run, their operations were in order and the host
/// holds exactly the files counted.
pub proof fn lemma_ticks_on_host(host: Host, state: ControllerState, readings: Seq<MemoryReading>)
    requires
        state.wf(),
        host.holds(state.allocated as int),
    ensures
        host.admits_all(state.ticks_ops(readings)),
        host.run(state.ticks_ops(readings)).holds(state.after_ticks(readings).allocated as int),
        host.run(state.ticks_ops(readings)).sentinel == host.sentinel,
    decreases readings.len(),
{
    if readings.len() > 0 {
        let before = readings.drop_last();
        lemma_ticks_on_host(host, state, before);
        lemma_ticks_bounded(state, before);
        lemma_decision_keeps_pool_exact(
            host.run(state.ticks_ops(before)),
            state.after_ticks(before),
            readings.last(),
        );
        lemma_run_concat(
            host,
            state.ticks_ops(before),
            state.after_ticks(before).tick_ops(readings.last()),
        );
    }
}

/// From startup on a fresh host through any run of ticks, every operation is
/// in order, and the host ends with the sentinel and with exactly the files
/// counted, all of them swapped on.
pub proof fn lemma_session_on_host(host: Host, config: Config, readings: Seq<MemoryReading>)
    requires
        host.fresh(),
        config.valid(),
    ensures
        ({
            let start = ControllerState { config, allocated: config.min_count };
            let ops = startup_ops(config.min_count) + start.ticks_ops(readings);
            &&& host.admits_all(ops)
            &&& host.run(ops).holds(start.after_ticks(readings).allocated as int)
            &&& host.run(ops).sentinel
            &&& config.min_count <= start.after_ticks(readings).allocated <= config.max_count
        }),
{
    let start = ControllerState { config, allocated: config.min_count };
    lemma_startup_on_host(host, config.min_count);
    lemma_ticks_on_host(host.run(startup_ops(config.min_count)), start, readings);
    lemma_ticks_bounded(start, readings);
    lemma_run_concat(host, startup_ops(config.min_count), start.ticks_ops(readings));
}

/// A turn of the loop keeps the pool on the host exact.  The turn that ends
/// the loop leaves the host as it is: no file is swapped off or removed.
pub proof fn lemma_step_on_host(host: Host, state: ControllerState, event: Event)
    requires
        state.wf(),
        host.holds(state.allocated as int),
    ensures
        host.admits_all(state.step_ops(event)),
        host.run(state.step_ops(event)).holds(state.after_step(event).allocated as int),
        event is SentinelGone ==> host.run(state.step_ops(event)) == host,
{
    match event {
        Event::SentinelGone => {},
        Event::Sample(reading) => {
            lemma_decision_keeps_pool_exact(host, state, reading);
        },
    }
}

} // verus!
