//! Worker-level runs of the whole action loop over scripted drivers:
//! write order, loopback echo, fault containment, and shutdown.

use frostbit::channel::{RecvOutcome, TextQueue};
use frostbit::errors::TerminalError;
use frostbit::fake::FakeDriver;
use frostbit::myserial::{DataBits, FlowControl, Parity, SerialPortInfo, StopBits};
use frostbit::worker::{IterationOutcome, RunnerState, TerminalRunner};

fn test_config() -> SerialPortInfo {
    SerialPortInfo::new(
        String::from("COM1"),
        115200,
        DataBits::Eight,
        Parity::Off,
        StopBits::One,
        FlowControl::Off,
    )
}

fn drain(reports: &mut TextQueue) -> Vec<String> {
    let mut out = Vec::new();
    loop {
        match reports.try_recv() {
            RecvOutcome::Received(t) => out.push(t),
            _ => return out,
        }
    }
}

#[test]
fn writes_are_recorded_in_send_order() {
    let mut runner = TerminalRunner::new(7, test_config(), FakeDriver::recorder());
    let mut commands = TextQueue::new();
    let mut reports = TextQueue::new();
    assert!(commands.send(String::from("one")));
    assert!(commands.send(String::from("two")));
    assert!(commands.send(String::from("three")));
    commands.close();
    runner.action_loop(&mut commands, &mut reports, 16);
    assert_eq!(runner.current_phase(), RunnerState::Terminated);
    let writes = runner.driver().recorded();
    assert_eq!(writes.len(), 3);
    assert_eq!(writes[0], b"one".to_vec());
    assert_eq!(writes[1], b"two".to_vec());
    assert_eq!(writes[2], b"three".to_vec());
}

#[test]
fn loopback_echoes_each_payload_as_one_report() {
    let mut runner = TerminalRunner::new(8, test_config(), FakeDriver::loopback());
    let mut commands = TextQueue::new();
    let mut reports = TextQueue::new();
    assert!(commands.send(String::from("alpha")));
    assert!(commands.send(String::from("beta")));
    assert!(commands.send(String::from("gamma")));
    commands.close();
    runner.action_loop(&mut commands, &mut reports, 16);
    let got = drain(&mut reports);
    assert_eq!(
        got,
        vec![String::from("alpha"), String::from("beta"), String::from("gamma")]
    );
}

#[test]
fn loopback_keeps_non_ascii_payloads_intact() {
    let mut runner = TerminalRunner::new(9, test_config(), FakeDriver::loopback());
    let mut commands = TextQueue::new();
    let mut reports = TextQueue::new();
    assert!(commands.send(String::from("héllo ⚙")));
    commands.close();
    runner.action_loop(&mut commands, &mut reports, 4);
    assert_eq!(drain(&mut reports), vec![String::from("héllo ⚙")]);
}

#[test]
fn a_single_read_fault_does_not_end_the_session() {
    let mut driver = FakeDriver::loopback();
    driver.inject_read_faults(1);
    let mut runner = TerminalRunner::new(10, test_config(), FakeDriver::loopback());
    let mut commands = TextQueue::new();
    let mut reports = TextQueue::new();
    // run it by hand: connect, then one faulting iteration
    let mut faulty = TerminalRunner::new(11, test_config(), driver);
    assert!(faulty.startup().is_ok());
    // iteration with nothing pending: the read faults, the worker goes on
    assert_eq!(
        faulty.service_iteration(&mut commands, &mut reports),
        IterationOutcome::Continue
    );
    // a command sent immediately after is still written...
    assert!(commands.send(String::from("still here")));
    assert_eq!(
        faulty.service_iteration(&mut commands, &mut reports),
        IterationOutcome::Continue
    );
    assert_eq!(faulty.driver().recorded().len(), 1);
    assert_eq!(faulty.driver().recorded()[0], b"still here".to_vec());
    // ...and its echo was delivered in the same iteration
    assert_eq!(drain(&mut reports), vec![String::from("still here")]);
    // the untouched runner is unaffected by any of this
    assert_eq!(runner.current_phase(), RunnerState::Connecting);
    assert!(runner.startup().is_ok());
}

#[test]
fn faults_before_delivery_only_delay_the_report() {
    let mut driver = FakeDriver::loopback();
    driver.inject_read_faults(3);
    let mut runner = TerminalRunner::new(12, test_config(), driver);
    let mut commands = TextQueue::new();
    let mut reports = TextQueue::new();
    assert!(commands.send(String::from("delayed")));
    // the queue stays open: the loop ends when its fuel runs out
    runner.action_loop(&mut commands, &mut reports, 16);
    assert_eq!(runner.driver().recorded().len(), 1);
    assert_eq!(drain(&mut reports), vec![String::from("delayed")]);
}

#[test]
fn rejected_writes_are_dropped_but_not_fatal() {
    // a driver that refuses writes: commands are lost, the session lives
    let mut driver = FakeDriver::new(true, false, false);
    let incoming = b"from the wire".to_vec();
    driver.feed(&incoming);
    let mut runner = TerminalRunner::new(13, test_config(), driver);
    let mut commands = TextQueue::new();
    let mut reports = TextQueue::new();
    assert!(commands.send(String::from("lost")));
    commands.close();
    runner.action_loop(&mut commands, &mut reports, 8);
    assert_eq!(runner.driver().recorded().len(), 0);
    // the loop kept reading: arrived data was still delivered
    assert_eq!(drain(&mut reports), vec![String::from("from the wire")]);
}

#[test]
fn connect_failure_exits_without_serving() {
    let mut runner = TerminalRunner::new(14, test_config(), FakeDriver::new(false, true, true));
    let mut commands = TextQueue::new();
    let mut reports = TextQueue::new();
    assert!(commands.send(String::from("never written")));
    commands.close();
    runner.action_loop(&mut commands, &mut reports, 8);
    assert_eq!(runner.current_phase(), RunnerState::Terminated);
    assert_eq!(runner.driver().recorded().len(), 0);
    assert!(drain(&mut reports).is_empty());
}

#[test]
fn startup_reports_connect_failed() {
    let mut runner = TerminalRunner::new(17, test_config(), FakeDriver::new(false, true, true));
    assert_eq!(runner.startup(), Err(TerminalError::ConnectFailed));
    assert_eq!(runner.current_phase(), RunnerState::Terminated);
}

#[test]
fn teardown_closes_the_connection() {
    let mut runner = TerminalRunner::new(15, test_config(), FakeDriver::loopback());
    let mut commands = TextQueue::new();
    let mut reports = TextQueue::new();
    commands.close();
    runner.action_loop(&mut commands, &mut reports, 4);
    assert_eq!(runner.current_phase(), RunnerState::Terminated);
    assert!(!runner.driver().is_connected());
}

#[test]
fn lossy_decoding_replaces_invalid_bytes() {
    // invalid UTF-8 on the wire must not crash the worker; it is decoded
    // lossily and still delivered
    let mut driver = FakeDriver::new(true, false, true);
    let incoming = vec![0x61, 0xff, 0x62];
    driver.feed(&incoming);
    let mut runner = TerminalRunner::new(16, test_config(), driver);
    let mut commands = TextQueue::new();
    let mut reports = TextQueue::new();
    runner.action_loop(&mut commands, &mut reports, 4);
    let got = drain(&mut reports);
    assert_eq!(got.len(), 1);
    assert_eq!(got[0], String::from("a\u{fffd}b"));
}
