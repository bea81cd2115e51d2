//! Tests of the protocol client, the controller state machine, the
//! duplicate-event draining, and the interface selection.

use qmk_gamemode::controller::focus_command;
use qmk_gamemode::controller::step;
use qmk_gamemode::controller::LoopEvent;
use qmk_gamemode::controller::SessionState;
use qmk_gamemode::device::is_target_app;
use qmk_gamemode::device::make_filter;
use qmk_gamemode::device::select_interface;
use qmk_gamemode::device::InterfaceAttrs;
use qmk_gamemode::hotplug::DeviceEvent;
use qmk_gamemode::protocol::classify_response;
use qmk_gamemode::protocol::make_command_frame;
use qmk_gamemode::protocol::ProtocolError;
use qmk_gamemode::scheduler::discovery_bursts;
use qmk_gamemode::HID_CMD_ENTER_GAME_MODE;
use qmk_gamemode::HID_CMD_EXIT_GAME_MODE;

#[test]
fn command_frame_is_fixed_size_with_opcode_first() {
    let frame = make_command_frame(HID_CMD_ENTER_GAME_MODE);
    assert_eq!(frame.len(), 32);
    assert_eq!(frame[0], 0x01);
    assert!(frame[1..].iter().all(|&b| b == 0));
}

#[test]
fn echoed_opcode_is_acknowledged() {
    let mut resp = vec![0u8; 32];
    resp[0] = 0x01;
    assert_eq!(classify_response(0x01, &resp), Ok(()));
}

#[test]
fn empty_response_is_no_response() {
    assert_eq!(
        classify_response(0x01, &[]),
        Err(ProtocolError::NoResponseError)
    );
}

#[test]
fn error_byte_is_firmware_rejection() {
    let mut resp = vec![0u8; 32];
    resp[0] = 0xFF;
    assert_eq!(
        classify_response(0x01, &resp),
        Err(ProtocolError::FirmwareRejectedError)
    );
}

#[test]
fn other_byte_is_unexpected() {
    let mut resp = vec![0u8; 32];
    resp[0] = 0x02;
    assert_eq!(
        classify_response(0x01, &resp),
        Err(ProtocolError::UnexpectedResponseError)
    );
}

#[test]
fn connected_burst_yields_one_discovery() {
    let burst = vec![DeviceEvent::Connected; 7];
    assert_eq!(discovery_bursts(&burst), 1);
    assert_eq!(discovery_bursts(&vec![DeviceEvent::Connected]), 1);
}

#[test]
fn empty_batch_yields_no_discovery() {
    assert_eq!(discovery_bursts(&Vec::new()), 0);
    assert_eq!(discovery_bursts(&vec![DeviceEvent::Disconnected; 4]), 0);
}

#[test]
fn separated_connect_runs_yield_separate_discoveries() {
    let batch = vec![
        DeviceEvent::Connected,
        DeviceEvent::Connected,
        DeviceEvent::Disconnected,
        DeviceEvent::Connected,
    ];
    assert_eq!(discovery_bursts(&batch), 2);
}

#[test]
fn fresh_acquisition_starts_idle() {
    let s = step(SessionState::NoDevice, LoopEvent::Connected { discovery_ok: true });
    assert_eq!(s, SessionState::Idle);
    let s = step(SessionState::InGameMode, LoopEvent::Connected { discovery_ok: true });
    assert_eq!(s, SessionState::Idle);
}

#[test]
fn failed_discovery_keeps_state() {
    let s = step(SessionState::NoDevice, LoopEvent::Connected { discovery_ok: false });
    assert_eq!(s, SessionState::NoDevice);
    let s = step(SessionState::Idle, LoopEvent::Connected { discovery_ok: false });
    assert_eq!(s, SessionState::Idle);
}

#[test]
fn disconnect_always_drops_device() {
    assert_eq!(step(SessionState::Idle, LoopEvent::Disconnected), SessionState::NoDevice);
    assert_eq!(step(SessionState::InGameMode, LoopEvent::Disconnected), SessionState::NoDevice);
    assert_eq!(step(SessionState::NoDevice, LoopEvent::Disconnected), SessionState::NoDevice);
}

#[test]
fn game_mode_round_trip() {
    // Device connects and discovery succeeds.
    let s = step(SessionState::NoDevice, LoopEvent::Connected { discovery_ok: true });
    assert_eq!(s, SessionState::Idle);
    // The target application gains focus: exactly one ENTER is called for.
    assert_eq!(focus_command(s, true), Some(HID_CMD_ENTER_GAME_MODE));
    let s = step(s, LoopEvent::Focus { is_target: true, transaction_ok: true });
    assert_eq!(s, SessionState::InGameMode);
    // Focus moves to a window with no identifier: one EXIT is called for.
    assert!(!is_target_app(None));
    assert_eq!(focus_command(s, false), Some(HID_CMD_EXIT_GAME_MODE));
    let s = step(s, LoopEvent::Focus { is_target: false, transaction_ok: true });
    assert_eq!(s, SessionState::Idle);
}

#[test]
fn repeated_focus_event_is_idempotent() {
    let s = SessionState::Idle;
    assert_eq!(focus_command(s, true), Some(HID_CMD_ENTER_GAME_MODE));
    let s = step(s, LoopEvent::Focus { is_target: true, transaction_ok: true });
    assert_eq!(focus_command(s, true), None);
    let same = step(s, LoopEvent::Focus { is_target: true, transaction_ok: true });
    assert_eq!(same, s);
}

#[test]
fn failed_transaction_releases_device() {
    let s = step(SessionState::Idle, LoopEvent::Focus { is_target: true, transaction_ok: false });
    assert_eq!(s, SessionState::NoDevice);
    // Further focus events are no-ops while no device is held.
    assert_eq!(focus_command(s, true), None);
    assert_eq!(focus_command(s, false), None);
    let s2 = step(s, LoopEvent::Focus { is_target: true, transaction_ok: true });
    assert_eq!(s2, SessionState::NoDevice);
    // A successful reconnection restores service.
    let s3 = step(s2, LoopEvent::Connected { discovery_ok: true });
    assert_eq!(s3, SessionState::Idle);
}

#[test]
fn target_app_is_recognized() {
    assert!(is_target_app(Some(b"gamescope".as_slice())));
    assert!(!is_target_app(Some(b"firefox".as_slice())));
    assert!(!is_target_app(Some(b"".as_slice())));
    assert!(!is_target_app(None));
}

#[test]
fn filter_needs_both_identifiers() {
    assert_eq!(make_filter(Some(0x362D), Some(0x0210)), Some((0x362D, 0x0210)));
    assert_eq!(make_filter(Some(0x362D), None), None);
    assert_eq!(make_filter(None, Some(0x0210)), None);
    assert_eq!(make_filter(None, None), None);
}

fn attrs(vendor_id: u16, product_id: u16, usage_page: u16, usage: u16) -> InterfaceAttrs {
    InterfaceAttrs { vendor_id, product_id, usage_page, usage }
}

#[test]
fn raw_hid_interface_is_selected_regardless_of_order() {
    let raw = attrs(0x362D, 0x0210, 0xFF60, 0x61);
    let boot = attrs(0x362D, 0x0210, 0x0001, 0x06);
    let one_way = vec![boot, raw];
    let other_way = vec![raw, boot];
    assert_eq!(select_interface(&one_way, None), Some(1));
    assert_eq!(select_interface(&other_way, None), Some(0));
}

#[test]
fn filtered_selection_skips_other_devices() {
    let other = attrs(0x1111, 0x2222, 0xFF60, 0x61);
    let ours = attrs(0x362D, 0x0210, 0xFF60, 0x61);
    let list = vec![other, ours];
    assert_eq!(select_interface(&list, Some((0x362D, 0x0210))), Some(1));
    assert_eq!(select_interface(&list, None), Some(0));
    assert_eq!(select_interface(&list, Some((0x9999, 0x9999))), None);
}

#[test]
fn no_matching_interface_is_found() {
    let boot = attrs(0x362D, 0x0210, 0x0001, 0x06);
    assert_eq!(select_interface(&vec![boot], None), None);
    assert_eq!(select_interface(&Vec::new(), None), None);
}
