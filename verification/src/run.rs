//! The full cycle of one machine: boot it, then release its power.

use vstd::prelude::*;
use crate::boot::{Boot, BootError, Readiness};
use crate::gpio::{HardwareError, SetOutput};
use crate::host::{CommandView, Reply};
use crate::test_machine::MachineView;

verus! {

/// How the release of power at the end of a run went. Every run tries it,
/// once, however the boot ended.
#[derive(Debug, PartialEq, Eq)]
pub enum Release {
    /// The relay's line was driven high.
    Released,
    /// The one attempt to drive the line high failed.
    Failed(HardwareError),
}

impl Clone for Release {
    fn clone(&self) -> (r: Self)
        ensures
            r == *self,
    {
        match self {
            Release::Released => Release::Released,
            Release::Failed(e) => Release::Failed(e.clone()),
        }
    }
}

/// The furthest phase that a run reached.
#[derive(Debug, Clone, Copy, PartialEq, Eq, Structural)]
pub enum Phase {
    /// The machine reported ready and its power is still on. A run passes
    /// through this phase and does not end in it: it goes on to release the
    /// power, and ends as `Completed` or `ShutdownFailed`.
    Booted,
    /// Power could not be applied or a wake packet could not be sent.
    BootFailed,
    /// The machine was woken and did not report ready in time.
    WaitTimedOut,
    /// The machine reported ready, and releasing its power failed.
    ShutdownFailed,
    /// The machine reported ready and its power was released.
    Completed,
}

/// The phase that a boot result and a release result make together. A boot
/// that failed or timed out keeps its phase whatever the release did.
pub open spec fn phase_of(boot: Result<Readiness, BootError>, release: Release) -> Phase {
    match boot {
        Err(_) => Phase::BootFailed,
        Ok(Readiness::TimedOut) => Phase::WaitTimedOut,
        Ok(Readiness::Ready) => match release {
            Release::Released => Phase::Completed,
            Release::Failed(_) => Phase::ShutdownFailed,
        },
    }
}

/// No outcome is in the phase `Booted`: an outcome holds the result of the
/// release, and with it a machine that was ready has completed its run or
/// failed to shut down.
pub proof fn lemma_no_outcome_is_booted(boot: Result<Readiness, BootError>, release: Release)
    ensures
        phase_of(boot, release) != Phase::Booted,
{
}

/// What driving one machine through its cycle came to.
#[derive(Debug, PartialEq, Eq)]
pub struct RunOutcome {
    /// The machine's name.
    pub name: String,
    /// How the boot ended.
    pub boot: Result<Readiness, BootError>,
    /// How the release of power ended.
    pub release: Release,
}

/// A copy of the result of a boot.
pub(crate) fn clone_boot_result(boot: &Result<Readiness, BootError>) -> (r: Result<
    Readiness,
    BootError,
>)
    ensures
        r == *boot,
{
    match boot {
        Ok(readiness) => Ok(*readiness),
        Err(e) => Err(e.clone()),
    }
}

impl Clone for RunOutcome {
    fn clone(&self) -> (r: Self)
        ensures
            r == *self,
    {
        RunOutcome {
            name: self.name.clone(),
            boot: clone_boot_result(&self.boot),
            release: self.release.clone(),
        }
    }
}

impl RunOutcome {
    /// The furthest phase that the run reached.
    pub fn phase(&self) -> (r: Phase)
        ensures
            r == phase_of(self.boot, self.release),
    {
        match &self.boot {
            Err(_) => Phase::BootFailed,
            Ok(Readiness::TimedOut) => Phase::WaitTimedOut,
            Ok(Readiness::Ready) => match &self.release {
                Release::Released => Phase::Completed,
                Release::Failed(_) => Phase::ShutdownFailed,
            },
        }
    }
}

/// Whether `outcome` tells how the run of machine `m` ended in state `at`:
/// the run has finished, and the outcome holds the machine's name and both
/// results of the run.
pub open spec fn tells(outcome: RunOutcome, m: MachineView, at: Run) -> bool {
    &&& outcome.name@ == m.name
    &&& at == (Run::Done { boot: outcome.boot, release: outcome.release })
}

/// Where the run of a machine stands.
#[derive(Debug, PartialEq, Eq)]
pub enum Run {
    /// The machine is being booted.
    Booting(Boot),
    /// The boot ended with `boot`; the relay's line is being driven high.
    Releasing { boot: Result<Readiness, BootError>, inner: SetOutput },
    /// Finished.
    Done { boot: Result<Readiness, BootError>, release: Release },
}

impl Clone for Run {
    fn clone(&self) -> (r: Self)
        ensures
            r == *self,
    {
        match self {
            Run::Booting(inner) => Run::Booting(inner.clone()),
            Run::Releasing { boot, inner } => Run::Releasing {
                boot: clone_boot_result(boot),
                inner: inner.clone(),
            },
            Run::Done { boot, release } => Run::Done {
                boot: clone_boot_result(boot),
                release: release.clone(),
            },
        }
    }
}

impl Run {
    /// The state a run starts in.
    pub open spec fn initial() -> Run {
        Run::Booting(Boot::initial())
    }

    /// The state a run starts in.
    pub fn start() -> (r: Run)
        ensures
            r == Run::initial(),
    {
        Run::Booting(Boot::start())
    }

    /// The state that the end of the boot leads to: the release of power,
    /// however the boot ended.
    pub open spec fn booted(boot: Result<Readiness, BootError>) -> Run {
        Run::Releasing { boot, inner: SetOutput::Probing }
    }

    /// The state that the reply to the pending command leads to.
    pub open spec fn next(self, reply: Reply) -> Run {
        match self {
            Run::Booting(inner) => match inner.next(reply) {
                Boot::Done(boot) => Run::booted(boot),
                running => Run::Booting(running),
            },
            Run::Releasing { boot, inner } => match inner.next(reply) {
                SetOutput::Done(Ok(_)) => Run::Done { boot, release: Release::Released },
                SetOutput::Done(Err(e)) => Run::Done { boot, release: Release::Failed(e) },
                running => Run::Releasing { boot, inner: running },
            },
            Run::Done { .. } => self,
        }
    }

    /// The command that this state waits on, for machine `m`.
    pub open spec fn command(self, m: MachineView) -> Option<CommandView> {
        match self {
            Run::Booting(inner) => inner.command(m),
            Run::Releasing { inner, .. } => inner.command(m.line, true),
            Run::Done { .. } => None,
        }
    }

    /// The states that a run passes through: an operation under way has not
    /// finished.
    pub open spec fn wf(self) -> bool {
        match self {
            Run::Booting(inner) => inner.wf() && !(inner is Done),
            Run::Releasing { inner, .. } => inner.wf() && !(inner is Done),
            Run::Done { .. } => true,
        }
    }

    /// The most commands that can still follow.
    pub open spec fn remaining(self) -> nat {
        match self {
            Run::Booting(inner) => inner.remaining() + 5,
            Run::Releasing { inner, .. } => inner.remaining(),
            Run::Done { .. } => 0,
        }
    }

    /// The state reached from this one by the given replies, in order.
    pub open spec fn after(self, replies: Seq<Reply>) -> Run
        decreases replies.len(),
    {
        if replies.len() == 0 {
            self
        } else {
            self.after(replies.drop_last()).next(replies.last())
        }
    }
}

} // verus!
