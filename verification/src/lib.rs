//! Bridges a window manager's focus-change notifications to a keyboard's
//! firmware game mode over a raw HID interface.
//!
//! The crate holds the daemon's verified core: the hotplug- and focus-line
//! parsers, the fixed-size command protocol, the controller state machine,
//! the duplicate-event draining of the event loop, and the device discovery
//! logic.  Process spawning, threads and the channels that feed the event
//! loop live outside of it and hand the core plain values.

use vstd::prelude::*;

pub mod bytes;
pub mod controller;
pub mod device;
pub mod focus;
pub mod hex;
pub mod hotplug;
pub mod protocol;
pub mod scheduler;

verus! {

/// Opcode telling the firmware to enter game mode.
pub const HID_CMD_ENTER_GAME_MODE: u8 = 0x01;
/// Opcode telling the firmware to exit game mode.
pub const HID_CMD_EXIT_GAME_MODE: u8 = 0x02;

/// Usage page of the vendor-defined raw HID interface.
pub const RAW_USAGE_PAGE: u16 = 0xFF60;
/// Usage of the vendor-defined raw HID interface.
pub const RAW_USAGE: u16 = 0x61;

} // verus!
