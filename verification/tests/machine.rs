use testrig::boot::{Boot, BootError, NetworkError, Readiness};
use testrig::gpio::{HardwareError, SetOutput};
use testrig::host::{Command, Reply};
use testrig::mac::AddressParseError;
use testrig::run::{Phase, Release, Run, RunOutcome};
use testrig::test_machine::TestMachine;
use testrig::wake::build_packet;

/// A host in memory: control files, a network and a clock.
struct Board {
    existing: Vec<String>,
    refused: Vec<String>,
    network_up: bool,
    packets_before_outage: Option<usize>,
    ready: bool,
    clock: u64,
    log: Vec<(u64, Command)>,
}

impl Board {
    fn new() -> Board {
        Board {
            existing: Vec::new(),
            refused: Vec::new(),
            network_up: true,
            packets_before_outage: None,
            ready: false,
            clock: 0,
            log: Vec::new(),
        }
    }

    fn perform(&mut self, command: &Command) -> Reply {
        self.log.push((self.clock, command.clone()));
        match command {
            Command::Probe { path } => {
                if self.existing.contains(path) {
                    Reply::Succeeded
                } else {
                    Reply::Failed("no such file or directory".to_string())
                }
            }
            Command::Write { path, text } => {
                if self.refused.contains(path) {
                    return Reply::Failed("permission denied".to_string());
                }
                if path == "/sys/class/gpio/export" {
                    self.existing.push(format!("/sys/class/gpio/gpio{}", text));
                }
                Reply::Succeeded
            }
            Command::Sleep { millis } => {
                self.clock += millis;
                Reply::Succeeded
            }
            Command::Broadcast { .. } => {
                let sent = self.packets().len() - 1;
                let outage = self.packets_before_outage.map_or(false, |n| sent >= n);
                if self.network_up && !outage {
                    Reply::Succeeded
                } else {
                    Reply::Failed("network is unreachable".to_string())
                }
            }
            Command::AwaitReady { millis } => {
                if self.ready {
                    Reply::Succeeded
                } else {
                    self.clock += millis;
                    Reply::Failed("timed out".to_string())
                }
            }
        }
    }

    fn commands(&self) -> Vec<Command> {
        self.log.iter().map(|entry| entry.1.clone()).collect()
    }

    fn writes(&self) -> Vec<(String, String)> {
        let mut writes = Vec::new();
        for (_, command) in &self.log {
            if let Command::Write { path, text } = command {
                writes.push((path.clone(), text.clone()));
            }
        }
        writes
    }

    fn packets(&self) -> Vec<u64> {
        let mut times = Vec::new();
        for (time, command) in &self.log {
            if let Command::Broadcast { .. } = command {
                times.push(*time);
            }
        }
        times
    }

    fn written_to(&self, path: &str, text: &str) -> usize {
        self.writes().iter().filter(|w| w.0 == path && w.1 == text).count()
    }
}

fn machine(name: &str, line: u32, boot_delay: u64, boot_timeout: u64) -> TestMachine {
    TestMachine::new(
        name.to_string(),
        "192.168.1.255".to_string(),
        &"aa:bb:cc:dd:ee:ff".to_string(),
        line,
        boot_delay,
        boot_timeout,
    )
    .unwrap()
}

fn drive(machine: &TestMachine, board: &mut Board) -> RunOutcome {
    let mut at = Run::start();
    let mut steps = 0;
    while let Some(command) = machine.run_command(&at) {
        let reply = board.perform(&command);
        at = machine.run(at, reply);
        steps += 1;
        assert!(steps <= 17);
    }
    machine.outcome(&at).unwrap()
}

fn probe(path: &str) -> Command {
    Command::Probe { path: path.to_string() }
}

fn write(path: &str, text: &str) -> Command {
    Command::Write { path: path.to_string(), text: text.to_string() }
}

fn wake() -> Command {
    Command::Broadcast {
        bind: "0.0.0.0:3000".to_string(),
        destination: "192.168.1.255:9".to_string(),
        payload: build_packet(&[0xaa, 0xbb, 0xcc, 0xdd, 0xee, 0xff]),
    }
}

#[test]
fn a_machine_needs_a_canonical_hardware_address() {
    let make = |mac: &str| {
        TestMachine::new("m".to_string(), "10.0.0.255".to_string(), &mac.to_string(), 1, 0, 0)
    };
    assert!(make("01:23:45:67:89:ab").is_ok());
    assert!(make("01:23:45:67:89:AB").is_ok());
    assert_eq!(make("").err(), Some(AddressParseError));
    assert_eq!(make("01:23:45:67:89").err(), Some(AddressParseError));
    assert_eq!(make("01:23:45:67:89:ab:cd").err(), Some(AddressParseError));
    assert_eq!(make("01:23:45:67:89:zz").err(), Some(AddressParseError));
}

#[test]
fn get_name_returns_the_name() {
    assert_eq!(machine("alpha", 1, 0, 0).get_name(), "alpha");
    assert_eq!(machine("", 1, 0, 0).get_name(), "");
}

#[test]
fn a_machine_gives_back_what_it_was_made_of() {
    let m = TestMachine::new(
        "beta".to_string(),
        "10.1.2.255".to_string(),
        &"01:23:45:67:89:AB".to_string(),
        27,
        50,
        60000,
    )
    .unwrap();
    assert_eq!(m.get_name(), "beta");
    assert_eq!(m.get_broadcast_address(), "10.1.2.255");
    assert_eq!(m.get_mac(), [0x01, 0x23, 0x45, 0x67, 0x89, 0xab]);
    assert_eq!(m.get_gpio(), 27);
    assert_eq!(m.get_boot_delay(), 50);
    assert_eq!(m.get_boot_timeout(), 60000);
    assert_eq!(m.clone(), m);
}

#[test]
fn send_wol_addresses_port_nine_from_port_three_thousand() {
    let m = TestMachine::new(
        "m".to_string(),
        "10.1.2.255".to_string(),
        &"01:23:45:67:89:AB".to_string(),
        5,
        0,
        0,
    )
    .unwrap();
    match m.send_wol() {
        Command::Broadcast { bind, destination, payload } => {
            assert_eq!(bind, "0.0.0.0:3000");
            assert_eq!(destination, "10.1.2.255:9");
            assert_eq!(payload, build_packet(&[0x01, 0x23, 0x45, 0x67, 0x89, 0xab]));
            assert_eq!(&payload[..6], &[0xff; 6]);
            assert_eq!(&payload[96..], &[0x01, 0x23, 0x45, 0x67, 0x89, 0xab]);
        }
        other => panic!("not a broadcast: {:?}", other),
    }
}

#[test]
fn a_run_asks_for_each_step_in_order() {
    let m = machine("alpha", 17, 50, 2000);
    let mut board = Board::new();
    let outcome = drive(&m, &mut board);
    assert_eq!(
        board.commands(),
        vec![
            probe("/sys/class/gpio/gpio17"),
            probe("/sys/class/gpio/gpio17"),
            write("/sys/class/gpio/export", "17"),
            write("/sys/class/gpio/gpio17/direction", "out"),
            write("/sys/class/gpio/gpio17/value", "0"),
            Command::Sleep { millis: 50 },
            wake(),
            Command::Sleep { millis: 100 },
            wake(),
            Command::Sleep { millis: 100 },
            wake(),
            Command::AwaitReady { millis: 2000 },
            probe("/sys/class/gpio/gpio17"),
            write("/sys/class/gpio/gpio17/value", "1"),
        ]
    );
    assert_eq!(outcome.name, "alpha");
    assert_eq!(outcome.boot, Ok(Readiness::TimedOut));
    assert_eq!(outcome.release, Release::Released);
    assert_eq!(outcome.phase(), Phase::WaitTimedOut);
}

#[test]
fn a_machine_that_reports_ready_completes() {
    let m = machine("alpha", 17, 50, 2000);
    let mut board = Board::new();
    board.ready = true;
    let outcome = drive(&m, &mut board);
    assert_eq!(outcome.boot, Ok(Readiness::Ready));
    assert_eq!(outcome.release, Release::Released);
    assert_eq!(outcome.phase(), Phase::Completed);
    assert_eq!(board.written_to("/sys/class/gpio/gpio17/value", "1"), 1);
}

#[test]
fn the_wake_signal_waits_for_the_boot_delay() {
    let m = machine("alpha", 17, 50, 2000);
    let mut board = Board::new();
    drive(&m, &mut board);
    let power_on = board
        .log
        .iter()
        .find(|entry| entry.1 == write("/sys/class/gpio/gpio17/value", "0"))
        .unwrap()
        .0;
    let packets = board.packets();
    assert_eq!(packets.len(), 3);
    assert!(packets[0] - power_on >= 50);
    assert_eq!(packets[0] - power_on, 50);
    assert_eq!(packets[1] - packets[0], 100);
    assert_eq!(packets[2] - packets[1], 100);
}

#[test]
fn the_wait_for_readiness_ends_at_the_boot_timeout() {
    let m = machine("alpha", 17, 50, 750);
    let mut board = Board::new();
    let outcome = drive(&m, &mut board);
    let last_packet = board.packets()[2];
    assert_eq!(outcome.phase(), Phase::WaitTimedOut);
    assert_eq!(board.clock - last_packet, 750);
    assert_eq!(board.clock, 50 + 100 + 100 + 750);
}

#[test]
fn a_boot_with_no_delays_still_sends_three_packets() {
    let m = machine("alpha", 17, 0, 0);
    let mut board = Board::new();
    let outcome = drive(&m, &mut board);
    assert_eq!(board.packets(), vec![0, 100, 200]);
    assert_eq!(board.clock, 200);
    assert_eq!(outcome.phase(), Phase::WaitTimedOut);
}

#[test]
fn a_failed_wake_still_releases_power_once() {
    for sent_before in 0..3 {
        let m = machine("alpha", 17, 50, 2000);
        let mut board = Board::new();
        board.packets_before_outage = Some(sent_before);
        let outcome = drive(&m, &mut board);
        assert_eq!(
            outcome.boot,
            Err(BootError::Wake(NetworkError { cause: "network is unreachable".to_string() }))
        );
        assert_eq!(outcome.release, Release::Released);
        assert_eq!(outcome.phase(), Phase::BootFailed);
        assert_eq!(board.packets().len(), sent_before + 1);
        assert_eq!(board.written_to("/sys/class/gpio/gpio17/value", "1"), 1);
        assert_eq!(board.written_to("/sys/class/gpio/gpio17/value", "0"), 1);
        assert!(!board.commands().contains(&Command::AwaitReady { millis: 2000 }));
    }
}

#[test]
fn a_line_that_cannot_be_exported_still_gets_its_one_release() {
    let m = machine("alpha", 17, 50, 2000);
    let mut board = Board::new();
    board.refused.push("/sys/class/gpio/export".to_string());
    let outcome = drive(&m, &mut board);
    let cause = HardwareError::ExportFailed("permission denied".to_string());
    assert_eq!(outcome.boot, Err(BootError::PowerOn(cause.clone())));
    assert_eq!(outcome.release, Release::Failed(cause));
    assert_eq!(outcome.phase(), Phase::BootFailed);
    assert_eq!(
        board.commands(),
        vec![
            probe("/sys/class/gpio/gpio17"),
            probe("/sys/class/gpio/gpio17"),
            write("/sys/class/gpio/export", "17"),
            probe("/sys/class/gpio/gpio17"),
            probe("/sys/class/gpio/gpio17"),
            write("/sys/class/gpio/export", "17"),
        ]
    );
    assert!(board.packets().is_empty());
}

#[test]
fn a_line_that_cannot_be_made_an_output_still_gets_its_one_release() {
    let m = machine("alpha", 17, 50, 2000);
    let mut board = Board::new();
    board.refused.push("/sys/class/gpio/gpio17/direction".to_string());
    let outcome = drive(&m, &mut board);
    assert_eq!(
        outcome.boot,
        Err(BootError::PowerOn(HardwareError::DirectionFailed("permission denied".to_string())))
    );
    assert_eq!(outcome.release, Release::Released);
    assert_eq!(outcome.phase(), Phase::BootFailed);
    assert_eq!(
        board.commands(),
        vec![
            probe("/sys/class/gpio/gpio17"),
            probe("/sys/class/gpio/gpio17"),
            write("/sys/class/gpio/export", "17"),
            write("/sys/class/gpio/gpio17/direction", "out"),
            probe("/sys/class/gpio/gpio17"),
            write("/sys/class/gpio/gpio17/value", "1"),
        ]
    );
    assert_eq!(board.written_to("/sys/class/gpio/gpio17/value", "1"), 1);
    assert_eq!(board.written_to("/sys/class/gpio/gpio17/value", "0"), 0);
}

#[test]
fn shutdown_follows_every_boot_as_a_plain_loop_would_do_it() {
    let machines = vec![machine("a", 1, 5, 10), machine("b", 2, 5, 10), machine("c", 3, 5, 10)];
    let mut names = Vec::new();
    for m in &machines {
        let mut board = Board::new();
        board.refused.push("/sys/class/gpio/export".to_string());
        if m.get_name() != "b" {
            board.existing.push(format!("/sys/class/gpio/gpio{}", m.get_gpio()));
        }
        let mut booting = Boot::start();
        while let Some(command) = m.boot_command(&booting) {
            let reply = board.perform(&command);
            booting = m.boot(booting, reply);
        }
        let asked_by_boot = board.commands().len();
        let mut shutting_down = SetOutput::Probing;
        while let Some(command) = m.shutdown_command(&shutting_down) {
            let reply = board.perform(&command);
            shutting_down = m.shutdown(shutting_down, reply);
        }
        let mut duplicate = Board::new();
        duplicate.refused = board.refused.clone();
        if m.get_name() != "b" {
            duplicate.existing.push(format!("/sys/class/gpio/gpio{}", m.get_gpio()));
        }
        let outcome = drive(&m, &mut duplicate);
        assert_eq!(duplicate.commands(), board.commands());
        assert!(board.commands().len() > asked_by_boot);
        assert_eq!(
            board.commands()[asked_by_boot],
            probe(&format!("/sys/class/gpio/gpio{}", m.get_gpio()))
        );
        assert_eq!(matches!(booting, Boot::Done(Err(_))), m.get_name() == "b");
        assert_eq!(matches!(shutting_down, SetOutput::Done(Err(_))), m.get_name() == "b");
        assert_eq!(Boot::Done(outcome.boot.clone()), booting);
        assert_eq!(outcome.release == Release::Released, shutting_down == SetOutput::Done(Ok(())));
        names.push(outcome.name);
    }
    assert_eq!(names, vec!["a", "b", "c"]);
}

#[test]
fn a_level_that_cannot_be_written_fails_the_boot_and_the_release() {
    let m = machine("alpha", 17, 50, 2000);
    let mut board = Board::new();
    board.refused.push("/sys/class/gpio/gpio17/value".to_string());
    let outcome = drive(&m, &mut board);
    let cause = HardwareError::WriteFailed("permission denied".to_string());
    assert_eq!(outcome.boot, Err(BootError::PowerOn(cause.clone())));
    assert_eq!(outcome.release, Release::Failed(cause));
    assert_eq!(outcome.phase(), Phase::BootFailed);
    assert!(board.packets().is_empty());
    assert_eq!(
        board.writes().last(),
        Some(&("/sys/class/gpio/gpio17/value".to_string(), "1".to_string()))
    );
}

#[test]
fn a_failed_release_is_shown_beside_the_boot() {
    let m = machine("alpha", 17, 0, 10);
    let mut at = Run::start();
    let mut replies = vec![Reply::Succeeded; 10];
    replies.push(Reply::Failed("i/o error".to_string()));
    for reply in replies {
        assert!(m.run_command(&at).is_some());
        at = m.run(at, reply);
    }
    assert_eq!(m.run_command(&at), None);
    let outcome = m.outcome(&at).unwrap();
    assert_eq!(outcome.boot, Ok(Readiness::Ready));
    assert_eq!(
        outcome.release,
        Release::Failed(HardwareError::WriteFailed("i/o error".to_string()))
    );
    assert_eq!(outcome.phase(), Phase::ShutdownFailed);
}

#[test]
fn a_timeout_keeps_its_phase_when_the_release_fails() {
    let outcome = RunOutcome {
        name: "m".to_string(),
        boot: Ok(Readiness::TimedOut),
        release: Release::Failed(HardwareError::WriteFailed("x".to_string())),
    };
    assert_eq!(outcome.phase(), Phase::WaitTimedOut);
}

#[test]
fn phase_of_each_outcome() {
    let phase = |boot: Result<Readiness, BootError>, release: Release| {
        RunOutcome { name: "m".to_string(), boot, release }.phase()
    };
    let hw = || HardwareError::WriteFailed("x".to_string());
    let net = || NetworkError { cause: "y".to_string() };
    assert_eq!(phase(Ok(Readiness::Ready), Release::Released), Phase::Completed);
    assert_eq!(phase(Ok(Readiness::Ready), Release::Failed(hw())), Phase::ShutdownFailed);
    assert_eq!(phase(Ok(Readiness::TimedOut), Release::Released), Phase::WaitTimedOut);
    assert_eq!(phase(Err(BootError::Wake(net())), Release::Released), Phase::BootFailed);
    assert_eq!(phase(Err(BootError::Wake(net())), Release::Failed(hw())), Phase::BootFailed);
    assert_eq!(phase(Err(BootError::PowerOn(hw())), Release::Released), Phase::BootFailed);
    assert_eq!(phase(Err(BootError::PowerOn(hw())), Release::Failed(hw())), Phase::BootFailed);
    assert_eq!(phase(Ok(Readiness::TimedOut), Release::Failed(hw())), Phase::WaitTimedOut);
}

#[test]
fn boot_alone_leaves_power_on_when_the_wake_fails() {
    let m = machine("alpha", 3, 5, 10);
    let mut board = Board::new();
    board.network_up = false;
    let mut at = Boot::start();
    while let Some(command) = m.boot_command(&at) {
        let reply = board.perform(&command);
        at = m.boot(at, reply);
    }
    assert_eq!(
        at,
        Boot::Done(Err(BootError::Wake(NetworkError {
            cause: "network is unreachable".to_string()
        })))
    );
    assert_eq!(board.written_to("/sys/class/gpio/gpio3/value", "0"), 1);
    assert_eq!(board.written_to("/sys/class/gpio/gpio3/value", "1"), 0);
}

#[test]
fn boot_counts_the_packets() {
    let m = machine("alpha", 3, 5, 10);
    assert_eq!(m.boot(Boot::Settling, Reply::Succeeded), Boot::Waking { sent: 0 });
    assert_eq!(m.boot(Boot::Waking { sent: 0 }, Reply::Succeeded), Boot::Spacing { sent: 1 });
    assert_eq!(m.boot(Boot::Spacing { sent: 1 }, Reply::Succeeded), Boot::Waking { sent: 1 });
    assert_eq!(m.boot(Boot::Waking { sent: 1 }, Reply::Succeeded), Boot::Spacing { sent: 2 });
    assert_eq!(m.boot(Boot::Waking { sent: 2 }, Reply::Succeeded), Boot::Awaiting);
    assert_eq!(m.boot(Boot::Waking { sent: 255 }, Reply::Succeeded), Boot::Awaiting);
    assert_eq!(m.boot(Boot::Awaiting, Reply::Succeeded), Boot::Done(Ok(Readiness::Ready)));
    assert_eq!(
        m.boot(Boot::Awaiting, Reply::Failed("late".to_string())),
        Boot::Done(Ok(Readiness::TimedOut))
    );
}

#[test]
fn shutdown_drives_the_line_high() {
    let m = machine("alpha", 8, 5, 10);
    let mut board = Board::new();
    board.existing.push("/sys/class/gpio/gpio8".to_string());
    let mut at = SetOutput::Probing;
    while let Some(command) = m.shutdown_command(&at) {
        let reply = board.perform(&command);
        at = m.shutdown(at, reply);
    }
    assert_eq!(at, SetOutput::Done(Ok(())));
    assert_eq!(
        board.commands(),
        vec![probe("/sys/class/gpio/gpio8"), write("/sys/class/gpio/gpio8/value", "1")]
    );
}

#[test]
fn outcome_is_there_only_at_the_end() {
    let m = machine("alpha", 8, 5, 10);
    assert_eq!(m.outcome(&Run::start()), None);
    assert_eq!(
        m.outcome(&Run::Releasing { boot: Ok(Readiness::Ready), inner: SetOutput::Driving }),
        None
    );
    let done = Run::Done { boot: Ok(Readiness::Ready), release: Release::Released };
    assert_eq!(
        m.outcome(&done),
        Some(RunOutcome {
            name: "alpha".to_string(),
            boot: Ok(Readiness::Ready),
            release: Release::Released
        })
    );
    assert_eq!(m.run(done.clone(), Reply::Failed("late".to_string())), done);
}

#[test]
fn every_run_ends_within_seventeen_replies() {
    let m = machine("alpha", 8, 5, 10);
    for bits in 0..(1u32 << 17) {
        let mut at = Run::start();
        let mut asked = 0;
        let mut releases_begun = 0;
        while m.run_command(&at).is_some() {
            let reply = if bits >> asked & 1 == 1 {
                Reply::Succeeded
            } else {
                Reply::Failed("no".to_string())
            };
            let booting = matches!(at, Run::Booting(_));
            at = m.run(at, reply);
            if booting && !matches!(at, Run::Booting(_)) {
                assert_eq!(m.run_command(&at), Some(probe("/sys/class/gpio/gpio8")));
                releases_begun += 1;
            }
            asked += 1;
            assert!(asked <= 17);
        }
        assert!(m.outcome(&at).is_some());
        assert_eq!(releases_begun, 1);
    }
}
