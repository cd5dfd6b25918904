//! What holds of every run, whatever the host replies.
//!
//! A run is followed through a sequence of replies: the state after each
//! reply, and the command that each reply answers.

use vstd::prelude::*;
use crate::boot::{lemma_boot_step, Boot, BootError, Readiness};
use crate::gpio::{
    decimal, direction_path, export_path, lemma_set_output_step, level_text, line_path, value_path,
    SetOutput,
};
use crate::host::{CommandView, Reply};
use crate::run::{phase_of, Phase, Run};
use crate::test_machine::MachineView;
use crate::wake::{WOL_COUNT, WOL_DELAY};

verus! {

impl Run {
    /// The command that reply `i` answers on the way from this state through
    /// `replies`; with `i` the number of replies, the command that the state
    /// reached waits on.
    pub open spec fn asked(self, m: MachineView, replies: Seq<Reply>, i: int) -> Option<
        CommandView,
    > {
        self.after(replies.take(i)).command(m)
    }

    /// The milliseconds that the commands answered by `replies` asked the
    /// host to let pass, in sleeps and in the wait for readiness, on the way
    /// from this state.
    pub open spec fn waited(self, m: MachineView, replies: Seq<Reply>) -> nat
        decreases replies.len(),
    {
        if replies.len() == 0 {
            0
        } else {
            self.waited(m, replies.drop_last()) + millis_of(
                self.after(replies.drop_last()).command(m),
            )
        }
    }

    /// How often the release of power was begun on the way from this state
    /// through `replies`.
    pub open spec fn releases_begun(self, replies: Seq<Reply>) -> nat
        decreases replies.len(),
    {
        if replies.len() == 0 {
            0
        } else {
            let before = self.after(replies.drop_last());
            let begun: nat = if before is Booting && before.next(replies.last()) is Releasing {
                1
            } else {
                0
            };
            self.releases_begun(replies.drop_last()) + begun
        }
    }

    /// How many wake packets the commands answered by `replies` asked for,
    /// on the way from this state.
    pub open spec fn wakes(self, m: MachineView, replies: Seq<Reply>) -> nat
        decreases replies.len(),
    {
        if replies.len() == 0 {
            0
        } else {
            let asked: nat = if sends_wake(self.after(replies.drop_last()).command(m)) {
                1
            } else {
                0
            };
            self.wakes(m, replies.drop_last()) + asked
        }
    }
}

/// Each step of a run uses up one command, and leads from a state that a run
/// passes through to another such state.
pub proof fn lemma_run_step(at: Run, reply: Reply, m: MachineView)
    requires
        at.wf(),
    ensures
        at.next(reply).wf(),
        at.command(m) is None <==> at is Done,
        !(at is Done) ==> at.next(reply).remaining() < at.remaining(),
{
    match at {
        Run::Booting(inner) => {
            lemma_boot_step(inner, reply, m);
        },
        Run::Releasing { inner, .. } => {
            lemma_set_output_step(inner, reply, m.line, true);
        },
        Run::Done { .. } => {},
    }
}

/// One more reply leads one state further.
pub proof fn lemma_after_step(at: Run, replies: Seq<Reply>, i: int)
    requires
        0 <= i < replies.len(),
    ensures
        at.after(replies.take(i + 1)) == at.after(replies.take(i)).next(replies[i]),
{
    assert(replies.take(i + 1).drop_last() =~= replies.take(i));
}

/// A run ends, and soon: whatever the host replies, every state on the way
/// is one that a run passes through, and after seventeen replies at the
/// latest the run has finished.
pub proof fn lemma_run_finishes(replies: Seq<Reply>)
    ensures
        Run::initial().after(replies).wf(),
        Run::initial().after(replies) is Done || Run::initial().after(replies).remaining()
            + replies.len() <= 17,
        replies.len() >= 17 ==> Run::initial().after(replies) is Done,
    decreases replies.len(),
{
    if replies.len() > 0 {
        lemma_run_finishes(replies.drop_last());
        let before = Run::initial().after(replies.drop_last());
        lemma_run_step(before, replies.last(), arbitrary());
    }
}

/// Power is released exactly once, whatever went before: a run that is
/// still booting has not begun the release, and every run that has left the
/// boot has begun it once, be the boot a success, a timeout or a failure of
/// any kind. A finished run shows how the release went.
pub proof fn lemma_release_once(replies: Seq<Reply>)
    ensures
        Run::initial().after(replies) is Booting ==> Run::initial().releases_begun(replies) == 0,
        !(Run::initial().after(replies) is Booting) ==> Run::initial().releases_begun(replies)
            == 1,
        Run::initial().after(replies) matches Run::Done { release, .. } ==> release is Released
            || release is Failed,
    decreases replies.len(),
{
    if replies.len() > 0 {
        lemma_release_once(replies.drop_last());
        lemma_run_finishes(replies.drop_last());
        let before = Run::initial().after(replies.drop_last());
        lemma_run_step(before, replies.last(), arbitrary());
    }
}

/// Whether a pending command sends a wake packet.
pub open spec fn sends_wake(command: Option<CommandView>) -> bool {
    command matches Some(c) && c is Broadcast
}

/// Whether power is still being applied or has just been applied: no wake
/// packet has gone out.
spec fn quiet(at: Run) -> bool {
    at matches Run::Booting(inner) && (inner is PoweringOn || inner is Settling)
}

proof fn lemma_quiet_so_far(replies: Seq<Reply>, k: int)
    requires
        0 <= k <= replies.len(),
        quiet(Run::initial().after(replies.take(k))),
    ensures
        forall|j: int| 0 <= j <= k ==> quiet(#[trigger] Run::initial().after(replies.take(j))),
    decreases k,
{
    if k > 0 {
        lemma_after_step(Run::initial(), replies, k - 1);
        lemma_quiet_so_far(replies, k - 1);
    }
}

/// No wake packet is sent before its time. Where a run asks for a wake
/// packet, the command just before was a sleep that the host has answered.
/// For the first packet of the run that sleep was the boot delay, and the
/// command before it was the write that applied power; for every later
/// packet it was the pause between packets, and the command before it was
/// the packet before.
pub proof fn lemma_wake_waits(m: MachineView, replies: Seq<Reply>, i: int)
    requires
        0 <= i <= replies.len(),
        sends_wake(Run::initial().asked(m, replies, i)),
    ensures
        i >= 3,
        (forall|j: int| 0 <= j < i ==> !sends_wake(#[trigger] Run::initial().asked(m, replies, j)))
            ==> {
            &&& Run::initial().asked(m, replies, i - 1) == Some(
                CommandView::Sleep { millis: m.boot_delay },
            )
            &&& Run::initial().asked(m, replies, i - 2) == Some(
                CommandView::Write { path: value_path(m.line), text: level_text(false) },
            )
        },
        (exists|j: int| 0 <= j < i && sends_wake(#[trigger] Run::initial().asked(m, replies, j)))
            ==> {
            &&& Run::initial().asked(m, replies, i - 1) == Some(
                CommandView::Sleep { millis: WOL_DELAY },
            )
            &&& sends_wake(Run::initial().asked(m, replies, i - 2))
        },
{
    let start = Run::initial();
    assert(start.after(replies.take(0)) == start);
    lemma_run_finishes(replies.take(i));
    lemma_run_finishes(replies.take(i - 1));
    lemma_run_finishes(replies.take(i - 2));
    lemma_after_step(start, replies, i - 1);
    lemma_after_step(start, replies, i - 2);
    if start.after(replies.take(i - 1)) == Run::Booting(Boot::Settling) {
        // The first packet: power has just been applied, and nothing was
        // sent on the way there.
        assert(start.after(replies.take(i - 2)) == Run::Booting(
            Boot::PoweringOn(SetOutput::Driving),
        ));
        lemma_quiet_so_far(replies, i - 1);
        assert forall|j: int| 0 <= j < i implies !sends_wake(
            #[trigger] start.asked(m, replies, j),
        ) by {
            assert(quiet(start.after(replies.take(j))));
        }
    } else {
        // A later packet: the pause before it followed the packet before.
        assert(sends_wake(start.asked(m, replies, i - 2)));
    }
}

/// A boot that timed out waited in full: on the way to a run whose boot
/// ended as timed out, the host was asked to wait for the machine for the
/// whole boot timeout, and it answered that the machine had not reported.
pub proof fn lemma_timeout_waits_in_full(m: MachineView, replies: Seq<Reply>)
    requires
        match Run::initial().after(replies) {
            Run::Booting(_) => false,
            Run::Releasing { boot, .. } => boot == Ok::<Readiness, BootError>(Readiness::TimedOut),
            Run::Done { boot, .. } => boot == Ok::<Readiness, BootError>(Readiness::TimedOut),
        },
    ensures
        exists|i: int|
            0 <= i < replies.len() && replies[i] is Failed && #[trigger] Run::initial().asked(
                m,
                replies,
                i,
            ) == Some(CommandView::AwaitReady { millis: m.boot_timeout }),
    decreases replies.len(),
{
    let start = Run::initial();
    let shorter = replies.drop_last();
    let before = start.after(shorter);
    lemma_run_finishes(shorter);
    if before is Booting {
        // The last reply ended the boot: it answered the wait.
        let i = replies.len() - 1;
        assert(replies.take(i) =~= shorter);
        assert(before == Run::Booting(Boot::Awaiting));
        assert(start.asked(m, replies, i) == Some(
            CommandView::AwaitReady { millis: m.boot_timeout },
        ));
    } else {
        lemma_timeout_waits_in_full(m, shorter);
        let i = choose|i: int|
            0 <= i < shorter.len() && shorter[i] is Failed && #[trigger] start.asked(
                m,
                shorter,
                i,
            ) == Some(CommandView::AwaitReady { millis: m.boot_timeout });
        assert(replies.take(i) =~= shorter.take(i));
        assert(start.asked(m, replies, i) == start.asked(m, shorter, i));
    }
}

/// The milliseconds that a command asks the host to let pass.
pub open spec fn millis_of(command: Option<CommandView>) -> nat {
    match command {
        Some(CommandView::Sleep { millis }) => millis as nat,
        Some(CommandView::AwaitReady { millis }) => millis as nat,
        _ => 0,
    }
}

/// The milliseconds that a boot without failure asks for: the boot delay,
/// the pauses between the wake packets, and the boot timeout.
pub open spec fn full_wait(m: MachineView) -> nat {
    (m.boot_delay + (WOL_COUNT - 1) * WOL_DELAY + m.boot_timeout) as nat
}

/// The milliseconds that the rest of a run can still ask for.
spec fn time_left(at: Run, m: MachineView) -> nat {
    match at {
        Run::Booting(Boot::PoweringOn(_)) => full_wait(m),
        Run::Booting(Boot::Settling) => full_wait(m),
        Run::Booting(Boot::Waking { sent }) => ((WOL_COUNT - 1 - sent) * WOL_DELAY
            + m.boot_timeout) as nat,
        Run::Booting(Boot::Spacing { sent }) => ((WOL_COUNT - sent) * WOL_DELAY
            + m.boot_timeout) as nat,
        Run::Booting(Boot::Awaiting) => m.boot_timeout as nat,
        _ => 0,
    }
}

/// Whether the boot of a run has ended without failure.
pub open spec fn boot_succeeded(at: Run) -> bool {
    match at {
        Run::Booting(_) => false,
        Run::Releasing { boot, .. } => boot is Ok,
        Run::Done { boot, .. } => boot is Ok,
    }
}

proof fn lemma_time_left(m: MachineView, replies: Seq<Reply>)
    ensures
        Run::initial().waited(m, replies) <= full_wait(m),
        boot_succeeded(Run::initial().after(replies)) ==> Run::initial().waited(m, replies)
            == full_wait(m),
        Run::initial().after(replies) is Booting ==> Run::initial().waited(m, replies) + time_left(
            Run::initial().after(replies),
            m,
        ) == full_wait(m),
    decreases replies.len(),
{
    if replies.len() > 0 {
        lemma_time_left(m, replies.drop_last());
        lemma_run_finishes(replies.drop_last());
    }
}

/// A run waits neither longer nor shorter than its machine says. Whatever
/// the host replies, the commands of a run never ask for more than the boot
/// delay, the pauses between the wake packets and the boot timeout together;
/// and a run whose boot did not fail has asked for exactly that.
pub proof fn lemma_run_waits(m: MachineView, replies: Seq<Reply>)
    ensures
        Run::initial().waited(m, replies) <= full_wait(m),
        boot_succeeded(Run::initial().after(replies)) ==> Run::initial().waited(m, replies)
            == full_wait(m),
{
    lemma_time_left(m, replies);
}

/// Whether a reply reports a fault: a write or a wake packet that failed. A
/// probe that finds nothing and a wait that times out are no faults.
pub open spec fn is_fault(command: Option<CommandView>, reply: Reply) -> bool {
    reply is Failed && (command matches Some(c) && (c is Write || c is Broadcast))
}

/// A run without a fault goes all the way: while no write and no wake packet
/// fails, the boot does not fail, and the run ends with the power released,
/// in the phase `Completed` or `WaitTimedOut`.
pub proof fn lemma_run_without_fault(m: MachineView, replies: Seq<Reply>)
    requires
        forall|i: int|
            0 <= i < replies.len() ==> !is_fault(
                #[trigger] Run::initial().asked(m, replies, i),
                replies[i],
            ),
    ensures
        match Run::initial().after(replies) {
            Run::Booting(_) => true,
            Run::Releasing { boot, .. } => boot is Ok,
            Run::Done { boot, release } => {
                &&& boot is Ok
                &&& release is Released
                &&& phase_of(boot, release) == Phase::Completed || phase_of(boot, release)
                    == Phase::WaitTimedOut
            },
        },
    decreases replies.len(),
{
    let start = Run::initial();
    if replies.len() > 0 {
        let shorter = replies.drop_last();
        assert forall|i: int| 0 <= i < shorter.len() implies !is_fault(
            #[trigger] start.asked(m, shorter, i),
            shorter[i],
        ) by {
            assert(shorter.take(i) =~= replies.take(i));
            assert(!is_fault(start.asked(m, replies, i), replies[i]));
        }
        lemma_run_without_fault(m, shorter);
        lemma_run_finishes(shorter);
        let i = replies.len() - 1;
        assert(!is_fault(start.asked(m, replies, i), replies[i]));
    }
}

/// Whether a command keeps to line `id`: a probe looks for the line's
/// directory, and a write exports the line, makes it an output or sets its
/// level. Commands that touch no control file keep to every line.
pub open spec fn keeps_to_line(command: Option<CommandView>, id: u32) -> bool {
    match command {
        Some(CommandView::Probe { path }) => path == line_path(id),
        Some(CommandView::Write { path, text }) => {
            ||| path == export_path() && text == decimal(id as nat)
            ||| path == direction_path(id) && text == "out"@
            ||| path == value_path(id) && (text == level_text(true) || text == level_text(false))
        },
        _ => true,
    }
}

/// A run touches no line but its machine's own: whatever state it is in,
/// the command it waits on keeps to that line.
pub proof fn lemma_run_keeps_to_its_line(m: MachineView, at: Run)
    ensures
        keeps_to_line(at.command(m), m.line),
{
}

/// The wake packets that a run in state `at` has behind it.
spec fn wakes_behind(at: Run) -> nat {
    match at {
        Run::Booting(Boot::Waking { sent }) => sent as nat,
        Run::Booting(Boot::Spacing { sent }) => sent as nat,
        Run::Booting(Boot::Awaiting) => WOL_COUNT as nat,
        _ => 0,
    }
}

proof fn lemma_wakes_behind(m: MachineView, replies: Seq<Reply>)
    ensures
        Run::initial().wakes(m, replies) <= WOL_COUNT,
        boot_succeeded(Run::initial().after(replies)) ==> Run::initial().wakes(m, replies)
            == WOL_COUNT,
        Run::initial().after(replies) is Booting ==> Run::initial().wakes(m, replies)
            == wakes_behind(Run::initial().after(replies)),
    decreases replies.len(),
{
    if replies.len() > 0 {
        lemma_wakes_behind(m, replies.drop_last());
        lemma_run_finishes(replies.drop_last());
    }
}

/// The wake packet goes out three times and no more: whatever the host
/// replies, a run never asks for more than `WOL_COUNT` wake packets, and a
/// run whose boot did not fail has asked for exactly that many.
pub proof fn lemma_wake_count(m: MachineView, replies: Seq<Reply>)
    ensures
        Run::initial().wakes(m, replies) <= WOL_COUNT,
        boot_succeeded(Run::initial().after(replies)) ==> Run::initial().wakes(m, replies)
            == WOL_COUNT,
{
    lemma_wakes_behind(m, replies);
}

} // verus!
