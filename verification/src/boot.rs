//! Booting one machine: power, the wake signal, and the wait for readiness.

use vstd::prelude::*;
use crate::gpio::{lemma_set_output_step, HardwareError, SetOutput};
use crate::host::{CommandView, Reply};
use crate::test_machine::MachineView;
use crate::wake::{magic_packet, WOL_COUNT, WOL_DELAY};

verus! {

/// The wake signal could not be sent, with the cause the host gave: the
/// socket could not be opened, broadcasting could not be allowed on it, or
/// the packet could not be sent.
#[derive(Debug, PartialEq, Eq)]
pub struct NetworkError {
    pub cause: String,
}

impl Clone for NetworkError {
    fn clone(&self) -> (r: Self)
        ensures
            r == *self,
    {
        NetworkError { cause: self.cause.clone() }
    }
}

/// Why a machine did not boot.
#[derive(Debug, PartialEq, Eq)]
pub enum BootError {
    /// Power could not be applied.
    PowerOn(HardwareError),
    /// A wake packet could not be sent.
    Wake(NetworkError),
}

impl Clone for BootError {
    fn clone(&self) -> (r: Self)
        ensures
            r == *self,
    {
        match self {
            BootError::PowerOn(e) => BootError::PowerOn(e.clone()),
            BootError::Wake(e) => BootError::Wake(e.clone()),
        }
    }
}

/// How the wait for a woken machine ended.
#[derive(Debug, Clone, Copy, PartialEq, Eq, Structural)]
pub enum Readiness {
    /// The machine reported ready in time.
    Ready,
    /// The boot timeout passed without a report.
    TimedOut,
}

/// The socket address that wake packets are sent from.
pub open spec fn wake_bind() -> Seq<char> {
    "0.0.0.0:3000"@
}

/// The command that sends one wake packet to machine `m`: the magic packet
/// for its hardware address, to port 9 of its broadcast address.
pub open spec fn wake_command(m: MachineView) -> CommandView {
    CommandView::Broadcast {
        bind: wake_bind(),
        destination: m.broadcast_address + ":9"@,
        payload: magic_packet(m.mac),
    }
}

/// Where the boot of a machine stands.
#[derive(Debug, PartialEq, Eq)]
pub enum Boot {
    /// Applying power: the relay's line is being driven low.
    PoweringOn(SetOutput),
    /// Power is on; sleeping for the boot delay.
    Settling,
    /// A wake packet is being sent, after `sent` earlier ones.
    Waking { sent: u8 },
    /// Sleeping between two wake packets, `sent` of them behind.
    Spacing { sent: u8 },
    /// All wake packets are out; waiting for the machine to report ready.
    Awaiting,
    /// Finished.
    Done(Result<Readiness, BootError>),
}

impl Clone for Boot {
    fn clone(&self) -> (r: Self)
        ensures
            r == *self,
    {
        match self {
            Boot::PoweringOn(inner) => Boot::PoweringOn(inner.clone()),
            Boot::Settling => Boot::Settling,
            Boot::Waking { sent } => Boot::Waking { sent: *sent },
            Boot::Spacing { sent } => Boot::Spacing { sent: *sent },
            Boot::Awaiting => Boot::Awaiting,
            Boot::Done(Ok(readiness)) => Boot::Done(Ok(*readiness)),
            Boot::Done(Err(e)) => Boot::Done(Err(e.clone())),
        }
    }
}

impl Boot {
    /// The state a boot starts in.
    pub open spec fn initial() -> Boot {
        Boot::PoweringOn(SetOutput::Probing)
    }

    /// The state a boot starts in.
    pub fn start() -> (r: Boot)
        ensures
            r == Boot::initial(),
    {
        Boot::PoweringOn(SetOutput::Probing)
    }

    /// The state that the reply to the pending command leads to.
    ///
    /// Power that cannot be applied ends the boot. After the boot delay the
    /// wake packet goes out `WOL_COUNT` times with a pause after each but the
    /// last; the first packet that cannot be sent ends the boot. The wait
    /// that follows ends the boot either way: a timeout is a result, not an
    /// error.
    pub open spec fn next(self, reply: Reply) -> Boot {
        match self {
            Boot::PoweringOn(inner) => match inner.next(reply) {
                SetOutput::Done(Ok(_)) => Boot::Settling,
                SetOutput::Done(Err(e)) => Boot::Done(Err(BootError::PowerOn(e))),
                running => Boot::PoweringOn(running),
            },
            Boot::Settling => Boot::Waking { sent: 0 },
            Boot::Waking { sent } => match reply {
                Reply::Succeeded => if sent + 1 >= WOL_COUNT {
                    Boot::Awaiting
                } else {
                    Boot::Spacing { sent: (sent + 1) as u8 }
                },
                Reply::Failed(cause) => Boot::Done(Err(BootError::Wake(NetworkError { cause }))),
            },
            Boot::Spacing { sent } => Boot::Waking { sent },
            Boot::Awaiting => match reply {
                Reply::Succeeded => Boot::Done(Ok(Readiness::Ready)),
                Reply::Failed(_) => Boot::Done(Ok(Readiness::TimedOut)),
            },
            Boot::Done(_) => self,
        }
    }

    /// The command that this state waits on, for machine `m`.
    pub open spec fn command(self, m: MachineView) -> Option<CommandView> {
        match self {
            Boot::PoweringOn(inner) => inner.command(m.line, false),
            Boot::Settling => Some(CommandView::Sleep { millis: m.boot_delay }),
            Boot::Waking { .. } => Some(wake_command(m)),
            Boot::Spacing { .. } => Some(CommandView::Sleep { millis: WOL_DELAY }),
            Boot::Awaiting => Some(CommandView::AwaitReady { millis: m.boot_timeout }),
            Boot::Done(_) => None,
        }
    }

    /// The states that a boot passes through: an operation under way has not
    /// finished, and the count of packets sent is in range.
    pub open spec fn wf(self) -> bool {
        match self {
            Boot::PoweringOn(inner) => inner.wf() && !(inner is Done),
            Boot::Waking { sent } => sent < WOL_COUNT,
            Boot::Spacing { sent } => 1 <= sent < WOL_COUNT,
            _ => true,
        }
    }

    /// The most commands that can still follow.
    pub open spec fn remaining(self) -> nat {
        match self {
            Boot::PoweringOn(inner) => inner.remaining() + 7,
            Boot::Settling => 7,
            Boot::Waking { sent } => if sent < WOL_COUNT {
                (2 * (WOL_COUNT - sent)) as nat
            } else {
                2
            },
            Boot::Spacing { sent } => if sent < WOL_COUNT {
                (2 * (WOL_COUNT - sent) + 1) as nat
            } else {
                3
            },
            Boot::Awaiting => 1,
            Boot::Done(_) => 0,
        }
    }
}

/// Each step of a boot uses up one command, and leads from a state that a
/// boot passes through to another such state.
pub proof fn lemma_boot_step(at: Boot, reply: Reply, m: MachineView)
    requires
        at.wf(),
    ensures
        at.next(reply).wf(),
        at.command(m) is None <==> at is Done,
        !(at is Done) ==> at.next(reply).remaining() < at.remaining(),
{
    if let Boot::PoweringOn(inner) = at {
        lemma_set_output_step(inner, reply, m.line, false);
    }
}

} // verus!
