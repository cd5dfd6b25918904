//! The interface between the controllers and the host that performs their
//! commands.
//!
//! A controller never touches the outside world. It names the next thing to
//! be done as a [`Command`]; the host does it and hands back a [`Reply`].

use vstd::prelude::*;

verus! {

/// The host's answer to one command.
///
/// A probe succeeds when the path exists, and a wait for readiness succeeds
/// when the machine reported in time. A sleep cannot fail: its reply is not
/// looked at.
#[derive(Debug, PartialEq, Eq)]
pub enum Reply {
    /// The command was carried out.
    Succeeded,
    /// The command was not carried out; the text is the cause the host gives.
    Failed(String),
}

impl Clone for Reply {
    fn clone(&self) -> (r: Self)
        ensures
            r == *self,
    {
        match self {
            Reply::Succeeded => Reply::Succeeded,
            Reply::Failed(cause) => Reply::Failed(cause.clone()),
        }
    }
}

/// One thing a controller asks the host to do.
#[derive(Debug, PartialEq, Eq)]
pub enum Command {
    /// Report whether `path` exists among the control files.
    Probe { path: String },
    /// Write `text` to the control file at `path`.
    Write { path: String, text: String },
    /// Suspend for `millis` milliseconds.
    Sleep { millis: u64 },
    /// Open a UDP socket bound to `bind`, allow broadcasts on it, send
    /// `payload` to `destination` and release the socket.
    Broadcast { bind: String, destination: String, payload: [u8; 102] },
    /// Wait until the machine reports ready, for `millis` milliseconds at most.
    AwaitReady { millis: u64 },
}

impl Clone for Command {
    fn clone(&self) -> (r: Self)
        ensures
            r == *self,
    {
        match self {
            Command::Probe { path } => Command::Probe { path: path.clone() },
            Command::Write { path, text } => Command::Write {
                path: path.clone(),
                text: text.clone(),
            },
            Command::Sleep { millis } => Command::Sleep { millis: *millis },
            Command::Broadcast { bind, destination, payload } => Command::Broadcast {
                bind: bind.clone(),
                destination: destination.clone(),
                payload: *payload,
            },
            Command::AwaitReady { millis } => Command::AwaitReady { millis: *millis },
        }
    }
}

/// What a [`Command`] says, with texts as sequences of characters.
pub enum CommandView {
    Probe { path: Seq<char> },
    Write { path: Seq<char>, text: Seq<char> },
    Sleep { millis: u64 },
    Broadcast { bind: Seq<char>, destination: Seq<char>, payload: Seq<u8> },
    AwaitReady { millis: u64 },
}

impl View for Command {
    type V = CommandView;

    open spec fn view(&self) -> CommandView {
        match *self {
            Command::Probe { path } => CommandView::Probe { path: path@ },
            Command::Write { path, text } => CommandView::Write { path: path@, text: text@ },
            Command::Sleep { millis } => CommandView::Sleep { millis },
            Command::Broadcast { bind, destination, payload } => CommandView::Broadcast {
                bind: bind@,
                destination: destination@,
                payload: payload@,
            },
            Command::AwaitReady { millis } => CommandView::AwaitReady { millis },
        }
    }
}

/// The view of a command that may be absent.
pub open spec fn view_of(command: Option<Command>) -> Option<CommandView> {
    match command {
        Some(c) => Some(c@),
        None => None,
    }
}

} // verus!
