//! One member of the fleet and the operations on it.

use vstd::prelude::*;
use vstd::string::*;
use crate::boot::{wake_command, Boot, BootError, NetworkError, Readiness};
use crate::gpio::{SetOutput, GPIO};
use crate::host::{view_of, Command, Reply};
use crate::mac::{is_mac_text, mac_octets, parse_mac, AddressParseError};
use crate::run::{clone_boot_result, tells, Release, Run, RunOutcome};
use crate::wake::{build_packet, WOL_COUNT, WOL_DELAY};

verus! {

/// What a [`TestMachine`] holds.
pub struct MachineView {
    /// The name that reports show.
    pub name: Seq<char>,
    /// The address on which the wake packet is broadcast.
    pub broadcast_address: Seq<char>,
    /// The six octets of the hardware address.
    pub mac: Seq<u8>,
    /// The number of the line that the machine's relay is on.
    pub line: u32,
    /// Milliseconds between applying power and the first wake packet.
    pub boot_delay: u64,
    /// Milliseconds to wait for the machine to report ready.
    pub boot_timeout: u64,
}

/// A test machine: a relay that powers it and a network card that wakes it.
#[derive(Debug, PartialEq, Eq)]
pub struct TestMachine {
    name: String,
    broadcast_address: String,
    mac: [u8; 6],
    gpio: GPIO,
    boot_delay: u64,
    boot_timeout: u64,
}

impl View for TestMachine {
    type V = MachineView;

    closed spec fn view(&self) -> MachineView {
        MachineView {
            name: self.name@,
            broadcast_address: self.broadcast_address@,
            mac: self.mac@,
            line: self.gpio@,
            boot_delay: self.boot_delay,
            boot_timeout: self.boot_timeout,
        }
    }
}

impl Clone for TestMachine {
    fn clone(&self) -> (r: Self)
        ensures
            r@ == self@,
    {
        TestMachine {
            name: self.name.clone(),
            broadcast_address: self.broadcast_address.clone(),
            mac: self.mac,
            gpio: self.gpio,
            boot_delay: self.boot_delay,
            boot_timeout: self.boot_timeout,
        }
    }
}

impl TestMachine {
    /// Describes a machine. The hardware address is given as text and must be
    /// in canonical form.
    pub fn new(
        name: String,
        broadcast_address: String,
        mac: &String,
        gpio: u32,
        boot_delay: u64,
        boot_timeout: u64,
    ) -> (r: Result<TestMachine, AddressParseError>)
        ensures
            r is Ok <==> is_mac_text(mac@),
            r matches Ok(m) ==> m@ == (MachineView {
                name: name@,
                broadcast_address: broadcast_address@,
                mac: mac_octets(mac@),
                line: gpio,
                boot_delay,
                boot_timeout,
            }),
    {
        match parse_mac(mac) {
            Ok(octets) => Ok(
                TestMachine {
                    name,
                    broadcast_address,
                    mac: octets,
                    gpio: GPIO::from_id(gpio),
                    boot_delay,
                    boot_timeout,
                },
            ),
            Err(e) => Err(e),
        }
    }

    /// Returns the name of the machine.
    pub fn get_name(&self) -> (r: &String)
        ensures
            r@ == self@.name,
    {
        &self.name
    }

    /// Returns the address on which the wake packet is broadcast.
    pub fn get_broadcast_address(&self) -> (r: &String)
        ensures
            r@ == self@.broadcast_address,
    {
        &self.broadcast_address
    }

    /// Returns the hardware address of the machine.
    pub fn get_mac(&self) -> (r: [u8; 6])
        ensures
            r@ == self@.mac,
    {
        self.mac
    }

    /// Returns the number of the line that the machine's relay is on.
    pub fn get_gpio(&self) -> (r: u32)
        ensures
            r == self@.line,
    {
        self.gpio.id()
    }

    /// Returns the milliseconds between applying power and the first wake
    /// packet.
    pub fn get_boot_delay(&self) -> (r: u64)
        ensures
            r == self@.boot_delay,
    {
        self.boot_delay
    }

    /// Returns the milliseconds to wait for the machine to report ready.
    pub fn get_boot_timeout(&self) -> (r: u64)
        ensures
            r == self@.boot_timeout,
    {
        self.boot_timeout
    }

    /// The command that sends one wake packet to the machine.
    pub fn send_wol(&self) -> (r: Command)
        ensures
            r@ == wake_command(self@),
    {
        let destination = self.broadcast_address.clone().concat(":9");
        Command::Broadcast {
            bind: String::from_str("0.0.0.0:3000"),
            destination,
            payload: build_packet(&self.mac),
        }
    }

    /// Boots the test machine: one step of the boot, from the state `at` and
    /// the reply to the command that `at` waits on.
    pub fn boot(&self, at: Boot, reply: Reply) -> (r: Boot)
        ensures
            r == at.next(reply),
    {
        match at {
            Boot::PoweringOn(inner) => match self.gpio.set_output(false, inner, reply) {
                SetOutput::Done(Ok(_)) => Boot::Settling,
                SetOutput::Done(Err(e)) => Boot::Done(Err(BootError::PowerOn(e))),
                running => Boot::PoweringOn(running),
            },
            Boot::Settling => Boot::Waking { sent: 0 },
            Boot::Waking { sent } => match reply {
                Reply::Succeeded => if sent >= WOL_COUNT - 1 {
                    Boot::Awaiting
                } else {
                    Boot::Spacing { sent: sent + 1 }
                },
                Reply::Failed(cause) => Boot::Done(Err(BootError::Wake(NetworkError { cause }))),
            },
            Boot::Spacing { sent } => Boot::Waking { sent },
            Boot::Awaiting => match reply {
                Reply::Succeeded => Boot::Done(Ok(Readiness::Ready)),
                Reply::Failed(_) => Boot::Done(Ok(Readiness::TimedOut)),
            },
            Boot::Done(result) => Boot::Done(result),
        }
    }

    /// The command that the boot waits on in state `at`; none once it has
    /// finished.
    pub fn boot_command(&self, at: &Boot) -> (r: Option<Command>)
        ensures
            view_of(r) == at.command(self@),
    {
        match at {
            Boot::PoweringOn(inner) => self.gpio.set_output_command(false, inner),
            Boot::Settling => Some(Command::Sleep { millis: self.boot_delay }),
            Boot::Waking { .. } => Some(self.send_wol()),
            Boot::Spacing { .. } => Some(Command::Sleep { millis: WOL_DELAY }),
            Boot::Awaiting => Some(Command::AwaitReady { millis: self.boot_timeout }),
            Boot::Done(_) => None,
        }
    }

    /// Shuts the machine down by driving the relay's line high: one step of
    /// that operation, from the state `at` and the reply to the command that
    /// `at` waits on.
    pub fn shutdown(&self, at: SetOutput, reply: Reply) -> (r: SetOutput)
        ensures
            r == at.next(reply),
    {
        self.gpio.set_output(true, at, reply)
    }

    /// The command that the shutdown waits on in state `at`; none once it has
    /// finished.
    pub fn shutdown_command(&self, at: &SetOutput) -> (r: Option<Command>)
        ensures
            view_of(r) == at.command(self@.line, true),
    {
        self.gpio.set_output_command(true, at)
    }

    /// Drives the machine through its cycle: one step of the run, from the
    /// state `at` and the reply to the command that `at` waits on. The boot
    /// comes first; when it has ended, however it ended, power is released.
    pub fn run(&self, at: Run, reply: Reply) -> (r: Run)
        ensures
            r == at.next(reply),
    {
        match at {
            Run::Booting(inner) => match self.boot(inner, reply) {
                Boot::Done(boot) => Run::Releasing { boot, inner: SetOutput::Probing },
                running => Run::Booting(running),
            },
            Run::Releasing { boot, inner } => match self.shutdown(inner, reply) {
                SetOutput::Done(Ok(_)) => Run::Done { boot, release: Release::Released },
                SetOutput::Done(Err(e)) => Run::Done { boot, release: Release::Failed(e) },
                running => Run::Releasing { boot, inner: running },
            },
            Run::Done { boot, release } => Run::Done { boot, release },
        }
    }

    /// The command that the run waits on in state `at`; none once it has
    /// finished.
    pub fn run_command(&self, at: &Run) -> (r: Option<Command>)
        ensures
            view_of(r) == at.command(self@),
    {
        match at {
            Run::Booting(inner) => self.boot_command(inner),
            Run::Releasing { inner, .. } => self.shutdown_command(inner),
            Run::Done { .. } => None,
        }
    }

    /// The outcome of a run that has finished; none while it is under way.
    pub fn outcome(&self, at: &Run) -> (r: Option<RunOutcome>)
        ensures
            r is Some <==> *at is Done,
            r matches Some(o) ==> tells(o, self@, *at),
    {
        match at {
            Run::Done { boot, release } => {
                Some(
                    RunOutcome {
                        name: self.name.clone(),
                        boot: clone_boot_result(boot),
                        release: release.clone(),
                    },
                )
            },
            _ => None,
        }
    }
}

} // verus!
