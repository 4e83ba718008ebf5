//! Tests of the session, allocation and dispatcher state machines.

use ptyrelay::ancillary::ControlData;
use ptyrelay::descriptor::OwnedDescriptor;
use ptyrelay::dispatch::{bind_outcome, AcceptAction, Dispatcher};
use ptyrelay::errors::{BindError, ChannelError, HandlerError, ProtocolError, PtyError,
    TerminalError};
use ptyrelay::handoff::HandoffQueue;
use ptyrelay::pty::{PtyAllocation, PtyStep};
use ptyrelay::session::{Session, SessionStep};
use ptyrelay::termmode::{TermMode, CS8, ECHO, ICANON, ICRNL, ISIG, NOT_A_TTY_ERRNO, OPOST};

fn cooked() -> TermMode {
    TermMode {
        iflag: ICRNL,
        oflag: OPOST,
        cflag: CS8,
        lflag: ISIG | ICANON | ECHO,
        vmin: 1,
        vtime: 0,
    }
}

#[test]
fn connection_walks_to_handoff() {
    let mut s = Session::new();
    match s.on_receive(vec![ControlData::Rights(vec![9])]) {
        SessionStep::QueryAttrs { fd_raw, close_extra } => {
            assert_eq!(fd_raw, 9);
            assert!(close_extra.is_empty());
        }
        _ => panic!("receive did not ask for attributes"),
    }
    match s.on_attrs(Ok(cooked())) {
        SessionStep::ApplyAttrs { fd_raw, mode } => {
            assert_eq!(fd_raw, 9);
            assert_eq!(mode.iflag, 0);
            assert_eq!(mode.oflag, 0);
            assert_eq!(mode.lflag, 0);
            assert_eq!(mode.cflag, CS8);
        }
        _ => panic!("attributes did not lead to an apply"),
    }
    let mut q = HandoffQueue::new();
    let step = s.on_applied(true, 0, &mut q);
    assert!(matches!(step, SessionStep::Handoff));
    assert_eq!(q.recv().unwrap().raw(), 9);
}

#[test]
fn malformed_receive_fails_the_connection() {
    let mut s = Session::new();
    match s.on_receive(Vec::new()) {
        SessionStep::Fail { error, release } => {
            assert_eq!(error, HandlerError::Protocol(ProtocolError::MissingAncillaryData));
            assert!(release.is_none());
        }
        _ => panic!("malformed receive was not rejected"),
    }
}

#[test]
fn pipe_descriptor_is_received_then_rejected_as_no_terminal() {
    let mut s = Session::new();
    match s.on_receive(vec![ControlData::Rights(vec![11])]) {
        SessionStep::QueryAttrs { fd_raw, .. } => assert_eq!(fd_raw, 11),
        _ => panic!("reception was not reported successful"),
    }
    match s.on_attrs(Err(NOT_A_TTY_ERRNO)) {
        SessionStep::Fail { error, release } => {
            assert_eq!(error, HandlerError::Terminal(TerminalError::NotATerminal));
            assert_eq!(release.unwrap().raw(), 11);
        }
        _ => panic!("the attribute failure was not reported"),
    }
}

#[test]
fn failed_apply_releases_the_descriptor() {
    let mut s = Session::new();
    s.on_receive(vec![ControlData::Rights(vec![12])]);
    s.on_attrs(Ok(cooked()));
    let mut q = HandoffQueue::new();
    match s.on_applied(false, 9, &mut q) {
        SessionStep::Fail { error, release } => {
            assert_eq!(error, HandlerError::Terminal(TerminalError::IoctlFailed));
            assert_eq!(release.unwrap().raw(), 12);
        }
        _ => panic!("the apply failure was not reported"),
    }
    assert!(q.recv().is_none());
}

#[test]
fn disconnected_relay_fails_the_handoff() {
    let mut s = Session::new();
    s.on_receive(vec![ControlData::Rights(vec![13])]);
    s.on_attrs(Ok(cooked()));
    let mut q = HandoffQueue::new();
    q.close_receiver();
    match s.on_applied(true, 0, &mut q) {
        SessionStep::Fail { error, release } => {
            assert_eq!(error, HandlerError::Channel(ChannelError::Disconnected));
            assert_eq!(release.unwrap().raw(), 13);
        }
        _ => panic!("the dead queue was not reported"),
    }
}

#[test]
fn surplus_descriptors_come_back_from_the_session() {
    let mut s = Session::new();
    match s.on_receive(vec![ControlData::Rights(vec![20, 21, 22])]) {
        SessionStep::QueryAttrs { fd_raw, close_extra } => {
            assert_eq!(fd_raw, 20);
            let ids: Vec<i32> = close_extra.iter().map(|d| d.raw()).collect();
            assert_eq!(ids, vec![21, 22]);
        }
        _ => panic!("receive did not ask for attributes"),
    }
}

#[test]
fn allocation_walks_to_a_pair() {
    let mut a = PtyAllocation::new();
    match a.on_master_opened(Some(OwnedDescriptor::new(30))) {
        PtyStep::DoGrant { master_raw } => assert_eq!(master_raw, 30),
        _ => panic!("master open did not lead to granting"),
    }
    match a.on_granted(true) {
        PtyStep::DoUnlock { master_raw } => assert_eq!(master_raw, 30),
        _ => panic!("grant did not lead to unlocking"),
    }
    match a.on_unlocked(true) {
        PtyStep::DoResolve { master_raw } => assert_eq!(master_raw, 30),
        _ => panic!("unlock did not lead to resolving"),
    }
    match a.on_resolved(Some(String::from("/dev/pts/7"))) {
        PtyStep::DoOpenSlave { slave_path } => assert_eq!(slave_path, "/dev/pts/7"),
        _ => panic!("resolve did not lead to the slave open"),
    }
    match a.on_slave_opened(Some(OwnedDescriptor::new(31))) {
        PtyStep::Finished(pair) => {
            assert_eq!(pair.master.raw(), 30);
            assert_eq!(pair.slave.raw(), 31);
        }
        _ => panic!("slave open did not finish the allocation"),
    }
}

#[test]
fn failed_master_open_aborts_with_nothing_to_release() {
    let mut a = PtyAllocation::new();
    match a.on_master_opened(None) {
        PtyStep::Abort { release, error } => {
            assert!(release.is_none());
            assert_eq!(error, PtyError::OpenMasterFailed);
        }
        _ => panic!("failed master open did not abort"),
    }
}

#[test]
fn each_later_failure_releases_the_master() {
    let mut a = PtyAllocation::new();
    a.on_master_opened(Some(OwnedDescriptor::new(40)));
    match a.on_granted(false) {
        PtyStep::Abort { release, error } => {
            assert_eq!(release.unwrap().raw(), 40);
            assert_eq!(error, PtyError::GrantFailed);
        }
        _ => panic!("failed grant did not abort"),
    }

    let mut b = PtyAllocation::new();
    b.on_master_opened(Some(OwnedDescriptor::new(41)));
    b.on_granted(true);
    match b.on_unlocked(false) {
        PtyStep::Abort { release, error } => {
            assert_eq!(release.unwrap().raw(), 41);
            assert_eq!(error, PtyError::UnlockFailed);
        }
        _ => panic!("failed unlock did not abort"),
    }

    let mut c = PtyAllocation::new();
    c.on_master_opened(Some(OwnedDescriptor::new(42)));
    c.on_granted(true);
    c.on_unlocked(true);
    match c.on_resolved(None) {
        PtyStep::Abort { release, error } => {
            assert_eq!(release.unwrap().raw(), 42);
            assert_eq!(error, PtyError::ResolveFailed);
        }
        _ => panic!("failed resolve did not abort"),
    }

    let mut d = PtyAllocation::new();
    d.on_master_opened(Some(OwnedDescriptor::new(43)));
    d.on_granted(true);
    d.on_unlocked(true);
    d.on_resolved(Some(String::from("/dev/pts/9")));
    match d.on_slave_opened(None) {
        PtyStep::Abort { release, error } => {
            assert_eq!(release.unwrap().raw(), 43);
            assert_eq!(error, PtyError::OpenSlaveFailed);
        }
        _ => panic!("failed slave open did not abort"),
    }
}

#[test]
fn one_handler_per_accepted_connection() {
    let mut d = Dispatcher::new();
    assert_eq!(d.handlers_started(), 0);
    assert_eq!(d.on_accept(true), AcceptAction::SpawnHandler);
    assert_eq!(d.on_accept(false), AcceptAction::ReportAndContinue);
    assert_eq!(d.on_accept(true), AcceptAction::SpawnHandler);
    assert_eq!(d.handlers_started(), 2);
}

#[test]
fn failed_bind_is_fatal() {
    assert!(bind_outcome(true).is_ok());
    assert_eq!(bind_outcome(false), Err(BindError::PathUnavailable));
}

#[test]
fn handler_errors_name_their_phase() {
    assert_eq!(
        HandlerError::Terminal(TerminalError::NotATerminal).message(),
        "descriptor is not a terminal"
    );
    assert_eq!(
        HandlerError::Channel(ChannelError::Disconnected).message(),
        "relay side of the handoff queue is disconnected"
    );
    assert_eq!(PtyError::UnlockFailed.message(), "unlocking the slave device failed");
    assert_eq!(
        BindError::PathUnavailable.message(),
        "could not bind the listening socket at the given path"
    );
    assert_eq!(TerminalError::IoctlFailed.message(), "terminal attribute call failed");
}
