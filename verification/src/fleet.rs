//! The fleet: every machine driven through its own run, none touching
//! another.
//!
//! The fleet keeps one run per machine. The host performs the machines'
//! commands in whatever order and with whatever concurrency it likes, and
//! hands each reply back with the index of the machine it belongs to.

use vstd::prelude::*;
use crate::host::{view_of, Command, Reply};
use crate::run::{tells, Run, RunOutcome};
use crate::test_machine::{MachineView, TestMachine};

verus! {

/// The views of a sequence of machines.
pub open spec fn views(machines: Seq<TestMachine>) -> Seq<MachineView> {
    Seq::new(machines.len(), |i: int| machines[i]@)
}

/// `n` runs that have not begun.
pub open spec fn all_started(n: nat) -> Seq<Run> {
    Seq::new(n, |i: int| Run::initial())
}

/// The runs after the reply `reply` has come in for machine `index`: that
/// machine's run is one step further and every other run is as it was. An
/// index that names no machine changes nothing.
pub open spec fn fleet_step(runs: Seq<Run>, index: int, reply: Reply) -> Seq<Run> {
    if 0 <= index < runs.len() {
        runs.update(index, runs[index].next(reply))
    } else {
        runs
    }
}

/// The runs after a sequence of replies, each with the index of its machine.
pub open spec fn fleet_after(runs: Seq<Run>, events: Seq<(int, Reply)>) -> Seq<Run>
    decreases events.len(),
{
    if events.len() == 0 {
        runs
    } else {
        fleet_step(fleet_after(runs, events.drop_last()), events.last().0, events.last().1)
    }
}

/// The replies among `events` that belong to machine `index`, in order.
pub open spec fn replies_to(events: Seq<(int, Reply)>, index: int) -> Seq<Reply>
    decreases events.len(),
{
    if events.len() == 0 {
        Seq::empty()
    } else if events.last().0 == index {
        replies_to(events.drop_last(), index).push(events.last().1)
    } else {
        replies_to(events.drop_last(), index)
    }
}

/// Whether every run has finished.
pub open spec fn all_done(runs: Seq<Run>) -> bool {
    forall|i: int| 0 <= i < runs.len() ==> #[trigger] runs[i] is Done
}

/// Machines do not touch one another: however the replies for the machines
/// of a fleet are interleaved, and however any other machine fares, a
/// machine's run is where its own replies alone would have led it. The
/// number of runs never changes.
pub proof fn lemma_fleet_isolation(runs: Seq<Run>, events: Seq<(int, Reply)>, index: int)
    requires
        0 <= index < runs.len(),
    ensures
        fleet_after(runs, events).len() == runs.len(),
        fleet_after(runs, events)[index] == runs[index].after(replies_to(events, index)),
    decreases events.len(),
{
    if events.len() > 0 {
        lemma_fleet_isolation(runs, events.drop_last(), index);
        if events.last().0 == index {
            let mine = replies_to(events, index);
            assert(mine.drop_last() =~= replies_to(events.drop_last(), index));
        }
    }
}

struct Slot {
    machine: TestMachine,
    at: Run,
}

/// A fleet of machines and the run of each.
pub struct Fleet {
    slots: Vec<Slot>,
}

impl Fleet {
    /// The machines of the fleet, in the order they were given.
    pub closed spec fn machines(&self) -> Seq<MachineView> {
        Seq::new(self.slots@.len(), |i: int| self.slots@[i].machine@)
    }

    /// The run of each machine.
    pub closed spec fn runs(&self) -> Seq<Run> {
        Seq::new(self.slots@.len(), |i: int| self.slots@[i].at)
    }

    /// A fleet of the given machines, with no run begun.
    pub fn new(machines: Vec<TestMachine>) -> (r: Fleet)
        ensures
            r.machines() == views(machines@),
            r.runs() == all_started(machines@.len()),
    {
        let mut machines = machines;
        let ghost given = machines@;
        let mut slots: Vec<Slot> = Vec::new();
        while machines.len() > 0
            invariant
                machines@.len() + slots@.len() == given.len(),
                forall|i: int| 0 <= i < machines@.len() ==> machines@[i] == given[i],
                forall|i: int|
                    0 <= i < slots@.len() ==> (#[trigger] slots@[i]).machine == given[given.len()
                        - 1 - i] && slots@[i].at == Run::initial(),
            decreases machines@.len(),
        {
            let machine = machines.pop().unwrap();
            let at = Run::start();
            slots.push(Slot { machine, at });
        }
        let mut ordered: Vec<Slot> = Vec::new();
        while slots.len() > 0
            invariant
                slots@.len() + ordered@.len() == given.len(),
                forall|i: int|
                    0 <= i < slots@.len() ==> (#[trigger] slots@[i]).machine == given[given.len()
                        - 1 - i] && slots@[i].at == Run::initial(),
                forall|i: int|
                    0 <= i < ordered@.len() ==> (#[trigger] ordered@[i]).machine == given[i]
                        && ordered@[i].at == Run::initial(),
            decreases slots@.len(),
        {
            let slot = slots.pop().unwrap();
            ordered.push(slot);
        }
        let r = Fleet { slots: ordered };
        r
    }

    /// How many machines the fleet has.
    pub fn len(&self) -> (r: usize)
        ensures
            r == self.machines().len(),
            r == self.runs().len(),
    {
        self.slots.len()
    }

    /// The command that the run of machine `index` waits on; none where that
    /// run has finished or `index` names no machine.
    pub fn command(&self, index: usize) -> (r: Option<Command>)
        ensures
            view_of(r) == if index < self.runs().len() {
                self.runs()[index as int].command(self.machines()[index as int])
            } else {
                None
            },
    {
        if index < self.slots.len() {
            let slot = &self.slots[index];
            slot.machine.run_command(&slot.at)
        } else {
            None
        }
    }

    /// Takes in the reply to the command that the run of machine `index`
    /// waits on. That run goes one step further; the machines and every
    /// other run stay as they are.
    pub fn advance(&mut self, index: usize, reply: Reply)
        ensures
            final(self).machines() == old(self).machines(),
            final(self).runs() == fleet_step(old(self).runs(), index as int, reply),
    {
        if index < self.slots.len() {
            let Slot { machine, at } = self.slots.remove(index);
            let at = machine.run(at, reply);
            self.slots.insert(index, Slot { machine, at });
        }
    }

    /// Whether every machine's run has finished.
    pub fn is_finished(&self) -> (r: bool)
        ensures
            r == all_done(self.runs()),
    {
        let mut i: usize = 0;
        while i < self.slots.len()
            invariant
                i <= self.slots@.len(),
                forall|j: int| 0 <= j < i ==> (#[trigger] self.slots@[j]).at is Done,
            decreases self.slots@.len() - i,
        {
            match &self.slots[i].at {
                Run::Done { .. } => {},
                _ => {
                    assert(!(self.runs()[i as int] is Done));
                    return false;
                },
            }
            i += 1;
        }
        true
    }

    /// The outcomes of the fleet, one per machine and in the machines' order,
    /// once every run has finished; none before that.
    pub fn outcomes(&self) -> (r: Option<Vec<RunOutcome>>)
        ensures
            r is Some <==> all_done(self.runs()),
            r matches Some(all) ==> all@.len() == self.machines().len() && forall|i: int|
                0 <= i < all@.len() ==> tells(
                    #[trigger] all@[i],
                    self.machines()[i],
                    self.runs()[i],
                ),
    {
        let mut all: Vec<RunOutcome> = Vec::new();
        let mut i: usize = 0;
        while i < self.slots.len()
            invariant
                i <= self.slots@.len(),
                all@.len() == i,
                forall|j: int|
                    0 <= j < i ==> tells(
                        #[trigger] all@[j],
                        self.slots@[j].machine@,
                        self.slots@[j].at,
                    ),
            decreases self.slots@.len() - i,
        {
            let slot = &self.slots[i];
            match slot.machine.outcome(&slot.at) {
                Some(outcome) => {
                    all.push(outcome);
                },
                None => {
                    assert(!(self.runs()[i as int] is Done));
                    return None;
                },
            }
            i += 1;
        }
        assert forall|j: int| 0 <= j < self.runs().len() implies #[trigger] self.runs()[j]
            is Done by {
            assert(tells(all@[j], self.slots@[j].machine@, self.slots@[j].at));
        }
        Some(all)
    }
}

} // verus!
