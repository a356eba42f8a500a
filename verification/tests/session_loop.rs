use server_usb::devices::{DeviceEntry, UsbDeviceIdentifier};
use server_usb::framer::{CompletedReport, FramingError, Symbology};
use server_usb::session::{SessionAction, SessionEvent, SessionLoop, SessionState};

fn target() -> UsbDeviceIdentifier {
    UsbDeviceIdentifier::VidPid { vid: 0x067e, pid: 0x0809 }
}

fn matching_snapshot() -> Vec<DeviceEntry> {
    vec![DeviceEntry { vendor_id: 0x067e, product_id: 0x0809, serial_number: None }]
}

fn other_snapshot() -> Vec<DeviceEntry> {
    vec![DeviceEntry { vendor_id: 0x1234, product_id: 0x5678, serial_number: None }]
}

/// A chunk of `len` zero bytes whose last three bytes are the given terminator.
fn read_chunk(len: usize, t0: u8, t1: u8, t2: u8) -> Vec<u8> {
    let mut c = vec![0u8; len];
    c[len - 3] = t0;
    c[len - 2] = t1;
    c[len - 1] = t2;
    c
}

/// Drive a fresh session through poll → open so that it is Connected.
fn connected_session() -> SessionLoop {
    let mut session = SessionLoop::new(target(), 5000);
    let out = session.on_event(SessionEvent::Polled(matching_snapshot()));
    assert_eq!(out.action, SessionAction::Open);
    let out = session.on_event(SessionEvent::Opened);
    assert_eq!(out.action, SessionAction::Read);
    assert_eq!(session.state(), SessionState::Connected);
    session
}

#[test]
fn initial_state_sleeps_before_first_poll() {
    let session = SessionLoop::new(target(), 5000);
    assert_eq!(session.state(), SessionState::Disconnected);
    assert_eq!(session.pending_action(), SessionAction::Sleep);
    assert_eq!(session.poll_interval_ms(), 5000);
    assert_eq!(*session.target(), target());
}

#[test]
fn scenario_three_read_failures_disconnect() {
    // Three consecutive read failures while connected: the first two retry
    // the read, the third drops back to Disconnected, and no read is
    // attempted again before the next full enumerate → open cycle.
    let mut session = connected_session();
    let out = session.on_event(SessionEvent::ReadFailed);
    assert_eq!(out.action, SessionAction::Read);
    assert_eq!(session.state(), SessionState::ReadingFailed { failures: 1 });
    let out = session.on_event(SessionEvent::ReadFailed);
    assert_eq!(out.action, SessionAction::Read);
    assert_eq!(session.state(), SessionState::ReadingFailed { failures: 2 });
    let out = session.on_event(SessionEvent::ReadFailed);
    assert_eq!(out.action, SessionAction::Sleep);
    assert_eq!(session.state(), SessionState::Disconnected);

    // The next cycle issues no read until enumerate and open both succeeded.
    let out = session.on_event(SessionEvent::Polled(other_snapshot()));
    assert_eq!(out.action, SessionAction::Sleep);
    let out = session.on_event(SessionEvent::Polled(matching_snapshot()));
    assert_eq!(out.action, SessionAction::Open);
    let out = session.on_event(SessionEvent::Opened);
    assert_eq!(out.action, SessionAction::Read);
}

#[test]
fn scenario_five_unmatched_polls_stay_disconnected() {
    // Five polls in a row find no matching device: the session stays
    // Disconnected and never asks for an open.
    let mut session = SessionLoop::new(target(), 5000);
    for _ in 0..5 {
        let out = session.on_event(SessionEvent::Polled(other_snapshot()));
        assert_eq!(out.action, SessionAction::Sleep);
        assert_eq!(out.completed, None);
        assert_eq!(out.violation, None);
        assert_eq!(session.state(), SessionState::Disconnected);
    }
}

#[test]
fn enumeration_failure_counts_as_no_devices() {
    let mut session = SessionLoop::new(target(), 5000);
    let out = session.on_event(SessionEvent::PollFailed);
    assert_eq!(out.action, SessionAction::Sleep);
    assert_eq!(session.state(), SessionState::Disconnected);
}

#[test]
fn open_failure_returns_to_disconnected() {
    let mut session = SessionLoop::new(target(), 5000);
    let out = session.on_event(SessionEvent::Polled(matching_snapshot()));
    assert_eq!(out.action, SessionAction::Open);
    assert_eq!(session.state(), SessionState::Connecting);
    let out = session.on_event(SessionEvent::OpenFailed);
    assert_eq!(out.action, SessionAction::Sleep);
    assert_eq!(session.state(), SessionState::Disconnected);
}

#[test]
fn completed_report_reaches_the_output() {
    let mut session = connected_session();
    let out = session.on_event(SessionEvent::ReadCompleted(read_chunk(50, 0x00, 0x01, 0x00)));
    assert_eq!(out.action, SessionAction::Read);
    assert_eq!(
        out.completed,
        Some(CompletedReport { total_bytes: 50, symbology: Symbology::Unknown(0, 0, 0) })
    );
    assert_eq!(out.violation, None);
    assert_eq!(session.state(), SessionState::Connected);
}

#[test]
fn successful_read_resets_the_failure_counter() {
    let mut session = connected_session();
    let out = session.on_event(SessionEvent::ReadFailed);
    assert_eq!(out.action, SessionAction::Read);
    let out = session.on_event(SessionEvent::ReadFailed);
    assert_eq!(out.action, SessionAction::Read);
    // A success in between: the counter starts over, so two more failures
    // do not disconnect.
    let out = session.on_event(SessionEvent::ReadCompleted(read_chunk(8, 0x00, 0x28, 0x01)));
    assert_eq!(out.action, SessionAction::Read);
    assert_eq!(session.state(), SessionState::Connected);
    let out = session.on_event(SessionEvent::ReadFailed);
    assert_eq!(out.action, SessionAction::Read);
    let out = session.on_event(SessionEvent::ReadFailed);
    assert_eq!(out.action, SessionAction::Read);
    assert_eq!(session.state(), SessionState::ReadingFailed { failures: 2 });
}

#[test]
fn short_read_surfaces_a_violation() {
    let mut session = connected_session();
    let out = session.on_event(SessionEvent::ReadCompleted(vec![0x00, 0x28]));
    assert_eq!(out.action, SessionAction::Read);
    assert_eq!(out.completed, None);
    assert_eq!(out.violation, Some(FramingError::ChunkTooShort));
    assert_eq!(session.state(), SessionState::Connected);
}

#[test]
fn partial_assembly_does_not_survive_a_disconnect() {
    let mut session = connected_session();
    // Half a report...
    let out = session.on_event(SessionEvent::ReadCompleted(read_chunk(64, 0x00, 0x28, 0x01)));
    assert_eq!(out.completed, None);
    // ...then the device goes away.
    session.on_event(SessionEvent::ReadFailed);
    session.on_event(SessionEvent::ReadFailed);
    let out = session.on_event(SessionEvent::ReadFailed);
    assert_eq!(out.action, SessionAction::Sleep);
    // After reconnecting, the first completed report counts only its own bytes.
    session.on_event(SessionEvent::Polled(matching_snapshot()));
    session.on_event(SessionEvent::Opened);
    let out = session.on_event(SessionEvent::ReadCompleted(read_chunk(10, 0x00, 0x28, 0x00)));
    assert_eq!(
        out.completed,
        Some(CompletedReport { total_bytes: 10, symbology: Symbology::Unknown(0, 0, 0) })
    );
}

#[test]
fn reports_flow_across_the_session() {
    // A two-chunk scan delivered through the session: both chunks counted.
    let mut session = connected_session();
    let out = session.on_event(SessionEvent::ReadCompleted(read_chunk(64, 0x00, 0x28, 0x01)));
    assert_eq!(out.completed, None);
    let out = session.on_event(SessionEvent::ReadCompleted(read_chunk(40, 0x00, 0x28, 0x00)));
    assert_eq!(
        out.completed,
        Some(CompletedReport { total_bytes: 104, symbology: Symbology::Unknown(0, 0, 0) })
    );
}

#[test]
fn serial_constrained_session_connects() {
    let id = UsbDeviceIdentifier::VidPidSn {
        vid: 0x067e,
        pid: 0x0809,
        sn: String::from("3203-11211268246"),
    };
    let mut session = SessionLoop::new(id, 1000);
    let snapshot = vec![DeviceEntry {
        vendor_id: 0x067e,
        product_id: 0x0809,
        serial_number: Some(String::from("3203-11211268246")),
    }];
    let out = session.on_event(SessionEvent::Polled(snapshot));
    assert_eq!(out.action, SessionAction::Open);
    assert_eq!(session.state(), SessionState::Connecting);
}
