//! Power-cycling controllers for a fleet of physical test machines.
//!
//! A test machine hangs on a relay that switches its power and on a network
//! over which it is woken. A run applies power, waits, sends the wake
//! signal, waits for the machine to report ready, and releases the power
//! again, whatever happened in between.
//!
//! The library decides; a host performs. Nothing here touches a file, a
//! socket or a clock. Each operation is a protocol: its state names the
//! [`host::Command`] it waits on, the host carries the command out, and the
//! [`host::Reply`] leads to the next state, until a state waits on nothing
//! and holds the result.
//!
//! * [`mac`] reads and writes hardware addresses.
//! * [`wake`] builds the magic packet.
//! * [`gpio`] prepares and drives the line of a relay.
//! * [`boot`] boots one machine, and [`run`] drives it through its whole
//!   cycle; [`run_laws`] holds what is true of every run.
//! * [`test_machine`] describes a machine and steps its protocols.
//! * [`fleet`] keeps the runs of many machines apart.

pub mod boot;
pub mod fleet;
pub mod gpio;
pub mod host;
pub mod mac;
pub mod run;
pub mod run_laws;
pub mod test_machine;
pub mod wake;
