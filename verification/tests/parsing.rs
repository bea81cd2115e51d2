//! Tests of the line parsers: hexadecimal identifiers, hotplug lines, and
//! the focused-window query output.

use qmk_gamemode::hex::parse_device_id;
use qmk_gamemode::hex::parse_hex_u16;
use qmk_gamemode::hotplug::extract_ids_exec;
use qmk_gamemode::hotplug::parse_udev_line;
use qmk_gamemode::hotplug::DeviceEvent;
use qmk_gamemode::focus::extract_app_id;
use qmk_gamemode::focus::find_app_id;
use qmk_gamemode::focus::is_focus_changed_line;
use qmk_gamemode::focus::trim_class;

#[test]
fn hex_parses_plain_values() {
    assert_eq!(parse_hex_u16(b"362D"), Some(0x362D));
    assert_eq!(parse_hex_u16(b"0210"), Some(0x0210));
    assert_eq!(parse_hex_u16(b"ffff"), Some(0xFFFF));
    assert_eq!(parse_hex_u16(b"0"), Some(0));
    assert_eq!(parse_hex_u16(b"00000061"), Some(0x61));
}

#[test]
fn hex_rejects_bad_input() {
    assert_eq!(parse_hex_u16(b""), None);
    assert_eq!(parse_hex_u16(b"36 2D"), None);
    assert_eq!(parse_hex_u16(b"xyz"), None);
    assert_eq!(parse_hex_u16(b"10000"), None);
}

#[test]
fn device_id_accepts_optional_prefix() {
    assert_eq!(parse_device_id(b"0x362D"), Some(0x362D));
    assert_eq!(parse_device_id(b"362D"), Some(0x362D));
    assert_eq!(parse_device_id(b"0x0x10"), Some(0x10));
    assert_eq!(parse_device_id(b"0x"), None);
    assert_eq!(parse_device_id(b""), None);
}

const ADD_LINE: &[u8] =
    b"KERNEL[12345.678] add      /devices/pci0000:00/usb1/1-1/1-1:1.0/0003:362D:0210.003D/hidraw/hidraw1 (hidraw)";
const REMOVE_LINE: &[u8] =
    b"KERNEL[12345.900] remove   /devices/pci0000:00/usb1/1-1/1-1:1.0/0003:362D:0210.003D/hidraw/hidraw1 (hidraw)";

#[test]
fn udev_line_ids_are_extracted() {
    assert_eq!(extract_ids_exec(ADD_LINE), Some((0x362D, 0x0210)));
}

#[test]
fn udev_add_line_connects() {
    assert_eq!(parse_udev_line(ADD_LINE, None), Some(DeviceEvent::Connected));
    assert_eq!(
        parse_udev_line(ADD_LINE, Some((0x362D, 0x0210))),
        Some(DeviceEvent::Connected)
    );
}

#[test]
fn udev_remove_line_disconnects() {
    assert_eq!(parse_udev_line(REMOVE_LINE, None), Some(DeviceEvent::Disconnected));
}

#[test]
fn udev_filter_mismatch_drops_event() {
    assert_eq!(parse_udev_line(ADD_LINE, Some((0x1234, 0x0210))), None);
    assert_eq!(parse_udev_line(ADD_LINE, Some((0x362D, 0x9999))), None);
}

#[test]
fn udev_line_without_ids_yields_nothing() {
    let line: &[u8] = b"KERNEL[111.222] add      /devices/pci0000:00/usb1/nomatch (hidraw)";
    assert_eq!(parse_udev_line(line, None), None);
    assert_eq!(extract_ids_exec(line), None);
}

#[test]
fn udev_irrelevant_lines_are_ignored() {
    assert_eq!(parse_udev_line(b"UDEV  [123.456] add /devices/0003:362D:0210.003D/hidraw/hidraw1", None), None);
    assert_eq!(parse_udev_line(b"KERNEL[123.456] bind /devices/0003:362D:0210.003D/hidraw/hidraw1", None), None);
    assert_eq!(parse_udev_line(b"", None), None);
}

#[test]
fn udev_unparsable_component_is_skipped() {
    let line: &[u8] =
        b"KERNEL[1.2] add /devices/0003:ZZZZ:0210.003D/0003:362D:0210.003D/hidraw/hidraw0 (hidraw)";
    assert_eq!(extract_ids_exec(line), Some((0x362D, 0x0210)));
    assert_eq!(parse_udev_line(line, None), Some(DeviceEvent::Connected));
}

#[test]
fn focus_change_line_is_detected() {
    assert!(is_focus_changed_line(b"Window focus changed: id 7"));
    assert!(!is_focus_changed_line(b"Workspace changed: 2"));
    assert!(!is_focus_changed_line(b""));
}

#[test]
fn app_id_line_is_extracted() {
    assert_eq!(
        extract_app_id(b"  App ID: \"gamescope\""),
        Some(b"gamescope".to_vec())
    );
    assert_eq!(extract_app_id(b"App ID: \"firefox\""), Some(b"firefox".to_vec()));
    assert_eq!(extract_app_id(b"App ID: unquoted"), Some(b"unquoted".to_vec()));
    assert_eq!(extract_app_id(b"App ID:"), Some(Vec::new()));
}

#[test]
fn non_app_id_lines_yield_nothing() {
    assert_eq!(extract_app_id(b"Title: \"Steam Big Picture\""), None);
    assert_eq!(extract_app_id(b""), None);
}

#[test]
fn first_app_id_line_wins() {
    let lines: Vec<Vec<u8>> = vec![
        b"Focused window:".to_vec(),
        b"  Title: \"Steam\"".to_vec(),
        b"  App ID: \"gamescope\"".to_vec(),
        b"  App ID: \"other\"".to_vec(),
    ];
    assert_eq!(find_app_id(&lines), Some(b"gamescope".to_vec()));
    let no_window: Vec<Vec<u8>> = vec![b"No focused window".to_vec()];
    assert_eq!(find_app_id(&no_window), None);
}

#[test]
fn trimming_removes_class_bytes_on_both_sides() {
    assert_eq!(trim_class(b"  abc \t", b" \t"), b"abc".as_slice());
    assert_eq!(trim_class(b"\"\"q\"", b"\""), b"q".as_slice());
    assert_eq!(trim_class(b"   ", b" "), b"".as_slice());
    assert_eq!(trim_class(b"abc", b" "), b"abc".as_slice());
}
