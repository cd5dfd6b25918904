//! The power switch: one relay behind a line of the kernel's GPIO control
//! files.
//!
//! A line must be exported to user space and turned into an output before it
//! can be driven. [`GPIO::prepare`] does that and [`GPIO::set_output`] drives
//! the line, preparing it first where needed. Both are written as protocols:
//! a state names the command it waits on, and the reply to that command
//! leads to the next state.

use vstd::prelude::*;
use vstd::string::*;
use crate::host::{view_of, Command, CommandView, Reply};

verus! {

/// Why a line could not be prepared or driven, with the cause the host gave.
#[derive(Debug, PartialEq, Eq)]
pub enum HardwareError {
    /// Writing the line's number to the export file failed.
    ExportFailed(String),
    /// Writing the direction of the line failed.
    DirectionFailed(String),
    /// Writing the level of the line failed.
    WriteFailed(String),
}

impl Clone for HardwareError {
    fn clone(&self) -> (r: Self)
        ensures
            r == *self,
    {
        match self {
            HardwareError::ExportFailed(cause) => HardwareError::ExportFailed(cause.clone()),
            HardwareError::DirectionFailed(cause) => HardwareError::DirectionFailed(cause.clone()),
            HardwareError::WriteFailed(cause) => HardwareError::WriteFailed(cause.clone()),
        }
    }
}

/// The character for a decimal digit.
pub open spec fn digit_char(d: int) -> char {
    ('0' as int + d) as char
}

/// A number in decimal, without sign or leading zeros.
pub open spec fn decimal(n: nat) -> Seq<char>
    decreases n,
{
    if n < 10 {
        seq![digit_char(n as int)]
    } else {
        decimal(n / 10) + seq![digit_char((n % 10) as int)]
    }
}

/// The file that exports a line when the line's number is written to it.
pub open spec fn export_path() -> Seq<char> {
    "/sys/class/gpio/export"@
}

/// The directory that exists exactly while line `id` is exported.
pub open spec fn line_path(id: u32) -> Seq<char> {
    "/sys/class/gpio/gpio"@ + decimal(id as nat)
}

/// The file that sets the direction of line `id`.
pub open spec fn direction_path(id: u32) -> Seq<char> {
    line_path(id) + "/direction"@
}

/// The file that sets the level of line `id`.
pub open spec fn value_path(id: u32) -> Seq<char> {
    line_path(id) + "/value"@
}

/// What is written to the value file for a level.
pub open spec fn level_text(state: bool) -> Seq<char> {
    if state {
        "1"@
    } else {
        "0"@
    }
}

/// Where the preparation of a line stands.
#[derive(Debug, PartialEq, Eq)]
pub enum Prepare {
    /// Asked whether the line is exported.
    Probing,
    /// Asked for the line's number to be written to the export file.
    Exporting,
    /// Asked for the line to be made an output.
    Directing,
    /// Finished.
    Done(Result<(), HardwareError>),
}

impl Clone for Prepare {
    fn clone(&self) -> (r: Self)
        ensures
            r == *self,
    {
        match self {
            Prepare::Probing => Prepare::Probing,
            Prepare::Exporting => Prepare::Exporting,
            Prepare::Directing => Prepare::Directing,
            Prepare::Done(Ok(unit)) => Prepare::Done(Ok(*unit)),
            Prepare::Done(Err(e)) => Prepare::Done(Err(e.clone())),
        }
    }
}

impl Prepare {
    /// The state that the reply to the pending command leads to. A line that
    /// is found exported needs nothing more; one that is not is exported and
    /// then made an output, and the first failure ends the preparation.
    pub open spec fn next(self, reply: Reply) -> Prepare {
        match self {
            Prepare::Probing => match reply {
                Reply::Succeeded => Prepare::Done(Ok(())),
                Reply::Failed(_) => Prepare::Exporting,
            },
            Prepare::Exporting => match reply {
                Reply::Succeeded => Prepare::Directing,
                Reply::Failed(cause) => Prepare::Done(Err(HardwareError::ExportFailed(cause))),
            },
            Prepare::Directing => match reply {
                Reply::Succeeded => Prepare::Done(Ok(())),
                Reply::Failed(cause) => Prepare::Done(Err(HardwareError::DirectionFailed(cause))),
            },
            Prepare::Done(_) => self,
        }
    }

    /// The command that this state waits on, for line `id`.
    pub open spec fn command(self, id: u32) -> Option<CommandView> {
        match self {
            Prepare::Probing => Some(CommandView::Probe { path: line_path(id) }),
            Prepare::Exporting => Some(
                CommandView::Write { path: export_path(), text: decimal(id as nat) },
            ),
            Prepare::Directing => Some(
                CommandView::Write { path: direction_path(id), text: "out"@ },
            ),
            Prepare::Done(_) => None,
        }
    }

    /// The most commands that can still follow.
    pub open spec fn remaining(self) -> nat {
        match self {
            Prepare::Probing => 3,
            Prepare::Exporting => 2,
            Prepare::Directing => 1,
            Prepare::Done(_) => 0,
        }
    }

    /// The state reached from this one by the given replies, in order.
    pub open spec fn after(self, replies: Seq<Reply>) -> Prepare
        decreases replies.len(),
    {
        if replies.len() == 0 {
            self
        } else {
            self.after(replies.drop_last()).next(replies.last())
        }
    }
}

/// Where the driving of a line stands.
#[derive(Debug, PartialEq, Eq)]
pub enum SetOutput {
    /// Asked whether the line is exported.
    Probing,
    /// The line was not exported: preparing it.
    Preparing(Prepare),
    /// Asked for the level to be written.
    Driving,
    /// Finished.
    Done(Result<(), HardwareError>),
}

impl Clone for SetOutput {
    fn clone(&self) -> (r: Self)
        ensures
            r == *self,
    {
        match self {
            SetOutput::Probing => SetOutput::Probing,
            SetOutput::Preparing(inner) => SetOutput::Preparing(inner.clone()),
            SetOutput::Driving => SetOutput::Driving,
            SetOutput::Done(Ok(unit)) => SetOutput::Done(Ok(*unit)),
            SetOutput::Done(Err(e)) => SetOutput::Done(Err(e.clone())),
        }
    }
}

impl SetOutput {
    /// The state that the reply to the pending command leads to. A line that
    /// is not exported is prepared first, and a failed preparation ends the
    /// operation with its error; then the level is written.
    pub open spec fn next(self, reply: Reply) -> SetOutput {
        match self {
            SetOutput::Probing => match reply {
                Reply::Succeeded => SetOutput::Driving,
                Reply::Failed(_) => SetOutput::Preparing(Prepare::Probing),
            },
            SetOutput::Preparing(inner) => match inner.next(reply) {
                Prepare::Done(Ok(_)) => SetOutput::Driving,
                Prepare::Done(Err(e)) => SetOutput::Done(Err(e)),
                running => SetOutput::Preparing(running),
            },
            SetOutput::Driving => match reply {
                Reply::Succeeded => SetOutput::Done(Ok(())),
                Reply::Failed(cause) => SetOutput::Done(Err(HardwareError::WriteFailed(cause))),
            },
            SetOutput::Done(_) => self,
        }
    }

    /// The command that this state waits on, for line `id` driven to `state`.
    pub open spec fn command(self, id: u32, state: bool) -> Option<CommandView> {
        match self {
            SetOutput::Probing => Some(CommandView::Probe { path: line_path(id) }),
            SetOutput::Preparing(inner) => inner.command(id),
            SetOutput::Driving => Some(
                CommandView::Write { path: value_path(id), text: level_text(state) },
            ),
            SetOutput::Done(_) => None,
        }
    }

    /// A preparation that is under way has not finished: its end leads on at
    /// once.
    pub open spec fn wf(self) -> bool {
        !(self matches SetOutput::Preparing(Prepare::Done(_)))
    }

    /// The most commands that can still follow.
    pub open spec fn remaining(self) -> nat {
        match self {
            SetOutput::Probing => 5,
            SetOutput::Preparing(inner) => inner.remaining() + 1,
            SetOutput::Driving => 1,
            SetOutput::Done(_) => 0,
        }
    }
}

/// Each step of a preparation uses up one command: a state that has not
/// finished waits on one, and its successor has fewer to come.
pub proof fn lemma_prepare_step(at: Prepare, reply: Reply, id: u32)
    ensures
        at.command(id) is None <==> at is Done,
        !(at is Done) ==> at.next(reply).remaining() < at.remaining(),
{
}

/// Each step of driving a line uses up one command, and leads from a state
/// that the operation passes through to another such state.
pub proof fn lemma_set_output_step(at: SetOutput, reply: Reply, id: u32, state: bool)
    requires
        at.wf(),
    ensures
        at.next(reply).wf(),
        at.command(id, state) is None <==> at is Done,
        !(at is Done) ==> at.next(reply).remaining() < at.remaining(),
{
}

/// Preparing a line that is already exported writes nothing and succeeds:
/// when the probe finds the line, the preparation has finished with success,
/// and at no point of it was a write asked for. This holds of every
/// preparation, so of a second one as of the first.
pub proof fn lemma_prepare_ready_is_noop(id: u32, replies: Seq<Reply>)
    requires
        replies.len() >= 1,
        replies[0] is Succeeded,
    ensures
        Prepare::Probing.after(replies) == Prepare::Done(Ok(())),
        forall|i: int|
            0 <= i <= replies.len() ==> !(#[trigger] Prepare::Probing.after(
                replies.take(i),
            ).command(id) is Some && Prepare::Probing.after(replies.take(i)).command(
                id,
            )->0 is Write),
    decreases replies.len(),
{
    let start = Prepare::Probing;
    let shorter = replies.drop_last();
    if replies.len() == 1 {
        assert(start.after(shorter) == start);
    } else {
        lemma_prepare_ready_is_noop(id, shorter);
    }
    assert forall|i: int| 0 <= i <= replies.len() implies !(#[trigger] start.after(
        replies.take(i),
    ).command(id) is Some && start.after(replies.take(i)).command(id)->0 is Write) by {
        if i == replies.len() {
            assert(replies.take(i) =~= replies);
        } else if i == 0 {
            assert(start.after(replies.take(0)) == start);
        } else {
            assert(shorter.take(i) =~= replies.take(i));
        }
    }
}

/// The number that a sequence of decimal digits denotes.
spec fn decimal_value(s: Seq<char>) -> nat
    decreases s.len(),
{
    if s.len() == 0 {
        0
    } else {
        (decimal_value(s.drop_last()) * 10 + (s.last() as int - '0' as int)) as nat
    }
}

proof fn lemma_decimal_digits(n: nat)
    ensures
        decimal(n).len() >= 1,
        forall|i: int| 0 <= i < decimal(n).len() ==> '0' <= #[trigger] decimal(n)[i] <= '9',
        decimal_value(decimal(n)) == n,
    decreases n,
{
    if n < 10 {
        assert(decimal_value(decimal(n).drop_last()) == 0);
    } else {
        lemma_decimal_digits(n / 10);
        assert(decimal(n).drop_last() =~= decimal(n / 10));
    }
}

/// Different numbers are written differently.
pub proof fn lemma_decimal_is_injective(a: nat, b: nat)
    requires
        decimal(a) == decimal(b),
    ensures
        a == b,
{
    lemma_decimal_digits(a);
    lemma_decimal_digits(b);
}

/// Two lines have no control file in common but the export file, and what
/// is written there names the line: the three paths of one line are
/// different from one another, from the export file and from every path of
/// the other line.
pub proof fn lemma_lines_share_no_file(a: u32, b: u32)
    requires
        a != b,
    ensures
        decimal(a as nat) != decimal(b as nat),
        line_path(a) != line_path(b),
        direction_path(a) != direction_path(b),
        value_path(a) != value_path(b),
        line_path(a) != direction_path(b),
        line_path(a) != value_path(b),
        direction_path(a) != value_path(b),
        direction_path(a) != line_path(a),
        value_path(a) != line_path(a),
        value_path(a) != direction_path(a),
        export_path() != line_path(a),
        export_path() != direction_path(a),
        export_path() != value_path(a),
{
    reveal_strlit("/sys/class/gpio/export");
    reveal_strlit("/sys/class/gpio/gpio");
    reveal_strlit("/direction");
    reveal_strlit("/value");
    let da = decimal(a as nat);
    let db = decimal(b as nat);
    lemma_decimal_digits(a as nat);
    lemma_decimal_digits(b as nat);
    if da == db {
        lemma_decimal_is_injective(a as nat, b as nat);
    }
    assert(line_path(a).len() == 20 + da.len());
    assert(line_path(b).len() == 20 + db.len());
    assert(direction_path(a).len() == 30 + da.len());
    assert(direction_path(b).len() == 30 + db.len());
    assert(value_path(a).len() == 26 + da.len());
    assert(value_path(b).len() == 26 + db.len());
    if line_path(a) == line_path(b) {
        assert forall|i: int| 0 <= i < da.len() implies da[i] == db[i] by {
            assert(line_path(a)[20 + i] == da[i]);
            assert(line_path(b)[20 + i] == db[i]);
        }
        assert(da =~= db);
    }
    if direction_path(a) == direction_path(b) {
        assert forall|i: int| 0 <= i < da.len() implies da[i] == db[i] by {
            assert(direction_path(a)[20 + i] == da[i]);
            assert(direction_path(b)[20 + i] == db[i]);
        }
        assert(da =~= db);
    }
    if value_path(a) == value_path(b) {
        assert forall|i: int| 0 <= i < da.len() implies da[i] == db[i] by {
            assert(value_path(a)[20 + i] == da[i]);
            assert(value_path(b)[20 + i] == db[i]);
        }
        assert(da =~= db);
    }
    if line_path(a) == direction_path(b) {
        assert(line_path(a)[20 + db.len() as int] == da[db.len() as int]);
        assert(direction_path(b)[20 + db.len() as int] == '/');
    }
    if line_path(a) == value_path(b) {
        assert(line_path(a)[20 + db.len() as int] == da[db.len() as int]);
        assert(value_path(b)[20 + db.len() as int] == '/');
    }
    if direction_path(a) == value_path(b) {
        assert(direction_path(a).last() == 'n');
        assert(value_path(b).last() == 'e');
    }
    assert(export_path()[16] == 'e');
    assert(line_path(a)[16] == 'g');
    assert(direction_path(a)[16] == 'g');
    assert(value_path(a)[16] == 'g');
}

/// One relay-controlled output, known by its line number.
#[derive(Debug, Clone, Copy, PartialEq, Eq)]
pub struct GPIO {
    id: u32,
}

impl View for GPIO {
    type V = u32;

    closed spec fn view(&self) -> u32 {
        self.id
    }
}

fn digit_text(d: u32) -> (r: &'static str)
    requires
        d < 10,
    ensures
        r@ == seq![digit_char(d as int)],
{
    proof {
        reveal_strlit("0");
        reveal_strlit("1");
        reveal_strlit("2");
        reveal_strlit("3");
        reveal_strlit("4");
        reveal_strlit("5");
        reveal_strlit("6");
        reveal_strlit("7");
        reveal_strlit("8");
        reveal_strlit("9");
    }
    match d {
        0 => "0",
        1 => "1",
        2 => "2",
        3 => "3",
        4 => "4",
        5 => "5",
        6 => "6",
        7 => "7",
        8 => "8",
        _ => "9",
    }
}

fn append_decimal(text: &mut String, n: u32)
    ensures
        final(text)@ == old(text)@ + decimal(n as nat),
    decreases n,
{
    if n >= 10 {
        append_decimal(text, n / 10);
    }
    text.append(digit_text(n % 10));
}

impl GPIO {
    /// The switch for line `id`.
    pub fn from_id(id: u32) -> (r: Self)
        ensures
            r@ == id,
    {
        Self { id }
    }

    /// The number of the line.
    pub fn id(&self) -> (r: u32)
        ensures
            r == self@,
    {
        self.id
    }

    fn id_text(&self) -> (r: String)
        ensures
            r@ == decimal(self@ as nat),
    {
        let mut text = String::new();
        append_decimal(&mut text, self.id);
        text
    }

    fn line_dir(&self) -> (r: String)
        ensures
            r@ == line_path(self@),
    {
        let mut path = String::from_str("/sys/class/gpio/gpio");
        append_decimal(&mut path, self.id);
        path
    }

    /// The command that finds out whether the line is exported.
    pub fn probe(&self) -> (r: Command)
        ensures
            r@ == (CommandView::Probe { path: line_path(self@) }),
    {
        Command::Probe { path: self.line_dir() }
    }

    /// Tells whether the line is ready, from the reply to [`GPIO::probe`]:
    /// it is when its directory was found among the control files.
    pub fn is_ready(&self, reply: &Reply) -> (r: bool)
        ensures
            r == (*reply is Succeeded),
    {
        match reply {
            Reply::Succeeded => true,
            Reply::Failed(_) => false,
        }
    }

    /// Prepares the line: one step of the preparation, from the state `at`
    /// and the reply to the command that `at` waits on.
    pub fn prepare(&self, at: Prepare, reply: Reply) -> (r: Prepare)
        ensures
            r == at.next(reply),
    {
        match at {
            Prepare::Probing => {
                if self.is_ready(&reply) {
                    Prepare::Done(Ok(()))
                } else {
                    Prepare::Exporting
                }
            },
            Prepare::Exporting => match reply {
                Reply::Succeeded => Prepare::Directing,
                Reply::Failed(cause) => Prepare::Done(Err(HardwareError::ExportFailed(cause))),
            },
            Prepare::Directing => match reply {
                Reply::Succeeded => Prepare::Done(Ok(())),
                Reply::Failed(cause) => Prepare::Done(Err(HardwareError::DirectionFailed(cause))),
            },
            Prepare::Done(result) => Prepare::Done(result),
        }
    }

    /// The command that the preparation waits on in state `at`; none once it
    /// has finished.
    pub fn prepare_command(&self, at: &Prepare) -> (r: Option<Command>)
        ensures
            view_of(r) == at.command(self@),
    {
        match at {
            Prepare::Probing => Some(self.probe()),
            Prepare::Exporting => Some(
                Command::Write {
                    path: String::from_str("/sys/class/gpio/export"),
                    text: self.id_text(),
                },
            ),
            Prepare::Directing => {
                let mut path = self.line_dir();
                path.append("/direction");
                Some(Command::Write { path, text: String::from_str("out") })
            },
            Prepare::Done(_) => None,
        }
    }

    /// Sets the output of the line to `state`: one step of the operation,
    /// from the state `at` and the reply to the command that `at` waits on.
    pub fn set_output(&self, state: bool, at: SetOutput, reply: Reply) -> (r: SetOutput)
        ensures
            r == at.next(reply),
    {
        match at {
            SetOutput::Probing => {
                if self.is_ready(&reply) {
                    SetOutput::Driving
                } else {
                    SetOutput::Preparing(Prepare::Probing)
                }
            },
            SetOutput::Preparing(inner) => match self.prepare(inner, reply) {
                Prepare::Done(Ok(_)) => SetOutput::Driving,
                Prepare::Done(Err(e)) => SetOutput::Done(Err(e)),
                running => SetOutput::Preparing(running),
            },
            SetOutput::Driving => match reply {
                Reply::Succeeded => SetOutput::Done(Ok(())),
                Reply::Failed(cause) => SetOutput::Done(Err(HardwareError::WriteFailed(cause))),
            },
            SetOutput::Done(result) => SetOutput::Done(result),
        }
    }

    /// The command that the operation waits on in state `at`; none once it
    /// has finished.
    pub fn set_output_command(&self, state: bool, at: &SetOutput) -> (r: Option<Command>)
        ensures
            view_of(r) == at.command(self@, state),
    {
        match at {
            SetOutput::Probing => Some(self.probe()),
            SetOutput::Preparing(inner) => self.prepare_command(inner),
            SetOutput::Driving => {
                let mut path = self.line_dir();
                path.append("/value");
                let text = if state {
                    String::from_str("1")
                } else {
                    String::from_str("0")
                };
                Some(Command::Write { path, text })
            },
            SetOutput::Done(_) => None,
        }
    }
}

} // verus!
