//! The device side: discovery of the raw HID interface among the attached
//! ones, and the command client that drives the firmware's game mode over
//! it.  The calls into the HID library stand behind trusted wrappers; the
//! selection logic and the protocol around them are verified.

use vstd::prelude::*;
use crate::RAW_USAGE;
use crate::RAW_USAGE_PAGE;
use crate::HID_CMD_ENTER_GAME_MODE;
use crate::HID_CMD_EXIT_GAME_MODE;
use crate::hotplug::spec_matches_filter;
use crate::protocol::FRAME_SIZE;
use crate::protocol::ProtocolError;
use crate::protocol::classify_response;
use crate::protocol::make_command_frame;

verus! {

#[verifier::external_type_specification]
#[verifier::external_body]
pub struct ExHidApi(hidapi::HidApi);

#[verifier::external_type_specification]
#[verifier::external_body]
pub struct ExHidDevice(hidapi::HidDevice);

#[verifier::external_type_specification]
#[verifier::external_body]
pub struct ExDeviceInfo(hidapi::DeviceInfo);

#[verifier::external_type_specification]
#[verifier::external_body]
pub struct ExHidError(hidapi::HidError);

/// Milliseconds the client waits for an acknowledgement.
pub const COMMAND_TIMEOUT_MS: i32 = 2000;

/// The identifying fields of one attached HID interface, as the selection
/// logic reads them.
#[derive(Clone, Copy, Debug, PartialEq, Eq, Structural)]
pub struct InterfaceAttrs {
    /// Vendor identifier of the interface.
    pub vendor_id: u16,
    /// Product identifier of the interface.
    pub product_id: u16,
    /// Usage page the interface reports.
    pub usage_page: u16,
    /// Usage the interface reports.
    pub usage: u16,
}

/// One attached HID interface as discovery sees it: the identifying fields
/// the selection logic reads, and the enumeration entry it came from, kept
/// to open the interface once selected.
pub struct Candidate {
    /// The fields the selection logic reads.
    pub attrs: InterfaceAttrs,
    /// The enumeration entry, used only to open the interface.
    pub info: hidapi::DeviceInfo,
}

/// Relies on hidapi::HidApi::device_list and the DeviceInfo accessors
/// vendor_id, product_id, usage_page and usage: one candidate per attached
/// HID interface, in enumeration order, carrying those four fields and the
/// entry itself.
#[verifier::external_body]
fn list_candidates(api: &hidapi::HidApi) -> (r: Vec<Candidate>) {
    api.device_list().map(
        |d| Candidate {
            attrs: InterfaceAttrs {
                vendor_id: d.vendor_id(),
                product_id: d.product_id(),
                usage_page: d.usage_page(),
                usage: d.usage(),
            },
            info: d.clone(),
        },
    ).collect()
}

/// Relies on hidapi::DeviceInfo::open_device: opens the interface this
/// candidate was enumerated from, by its path.
#[verifier::external_body]
fn open_candidate(api: &hidapi::HidApi, c: &Candidate) -> (r: Result<
    hidapi::HidDevice,
    hidapi::HidError,
>) {
    c.info.open_device(api)
}

/// Relies on hidapi::HidDevice::write: sends one output report, returning
/// how many bytes were written.
#[verifier::external_body]
fn hid_write(dev: &hidapi::HidDevice, data: &[u8]) -> (r: Result<usize, hidapi::HidError>) {
    dev.write(data)
}

/// Relies on hidapi::HidDevice::read_timeout: reads one input report into a
/// buffer of `buf_len` bytes, returning how many were read — zero on
/// timeout — so the returned bytes never exceed the buffer.
#[verifier::external_body]
fn hid_read_timeout(dev: &hidapi::HidDevice, buf_len: usize, timeout_ms: i32) -> (r: Result<
    Vec<u8>,
    hidapi::HidError,
>)
    ensures
        r matches Ok(v) ==> v@.len() <= buf_len,
{
    let mut buf = vec![0u8; buf_len];
    match dev.read_timeout(&mut buf, timeout_ms) {
        Ok(n) => {
            buf.truncate(n);
            Ok(buf)
        },
        Err(e) => Err(e),
    }
}

/// Why discovery failed: no attached interface matched, or the matching one
/// could not be opened.  Both are recoverable; the caller waits for the
/// next hotplug notification.
#[derive(Clone, Copy, Debug, PartialEq, Eq, Structural)]
pub enum DiscoveryError {
    /// No attached interface passed the filter and reported the raw HID
    /// usage pair.
    NotFound,
    /// The selected interface could not be opened.
    OpenFailed,
}

/// Whether discovery accepts the interface: it passes the configured
/// filter and reports the vendor-defined raw HID usage page and usage.
pub open spec fn spec_interface_matches(a: InterfaceAttrs, filter: Option<(u16, u16)>) -> bool {
    spec_matches_filter(a.vendor_id, a.product_id, filter) && a.usage_page == RAW_USAGE_PAGE
        && a.usage == RAW_USAGE
}

/// Picks the first interface that passes the filter and reports the raw
/// HID usage pair; none when no interface does.
pub fn select_interface(attrs: &Vec<InterfaceAttrs>, filter: Option<(u16, u16)>) -> (r: Option<
    usize,
>)
    ensures
        r matches Some(i) ==> i < attrs@.len() && spec_interface_matches(attrs@[i as int], filter)
            && forall|j: int| 0 <= j < i ==> !spec_interface_matches(attrs@[j], filter),
        r is None ==> forall|j: int|
            0 <= j < attrs@.len() ==> !spec_interface_matches(attrs@[j], filter),
{
    let n = attrs.len();
    let mut i: usize = 0;
    while i < n
        invariant
            i <= n,
            n == attrs@.len(),
            forall|j: int| 0 <= j < i ==> !spec_interface_matches(attrs@[j], filter),
        decreases n - i,
    {
        let a = &attrs[i];
        let pass = match filter {
            None => true,
            Some((fv, fp)) => a.vendor_id == fv && a.product_id == fp,
        };
        if pass && a.usage_page == RAW_USAGE_PAGE && a.usage == RAW_USAGE {
            return Some(i);
        }
        i += 1;
    }
    None
}

/// Enumerates the attached HID interfaces and opens the first that passes
/// the filter and reports the raw HID usage pair.  What is attached is the
/// machine's affair; the selection among the enumerated candidates is
/// `select_interface`'s contract.
pub fn find_keyboard(api: &hidapi::HidApi, filter: Option<(u16, u16)>) -> (r: Result<
    hidapi::HidDevice,
    DiscoveryError,
>) {
    let cands = list_candidates(api);
    let mut attrs: Vec<InterfaceAttrs> = Vec::new();
    let mut k: usize = 0;
    while k < cands.len()
        invariant
            k <= cands@.len(),
            attrs@.len() == k,
            forall|j: int| 0 <= j < k ==> attrs@[j] == cands@[j].attrs,
        decreases cands@.len() - k,
    {
        attrs.push(cands[k].attrs);
        k += 1;
    }
    match select_interface(&attrs, filter) {
        None => Err(DiscoveryError::NotFound),
        Some(i) => match open_candidate(api, &cands[i]) {
            Ok(d) => Ok(d),
            Err(_) => Err(DiscoveryError::OpenFailed),
        },
    }
}

/// Combines the two configured identifiers into a filter: only when both
/// are present is a filter applied.
pub fn make_filter(vid: Option<u16>, pid: Option<u16>) -> (r: Option<(u16, u16)>)
    ensures
        r is Some <==> (vid is Some && pid is Some),
        r matches Some((v, p)) ==> vid == Some(v) && pid == Some(p),
{
    match (vid, pid) {
        (Some(v), Some(p)) => Some((v, p)),
        _ => None,
    }
}

/// The application identifier whose focus controls game mode.
pub open spec fn target_app_id() -> Seq<u8> {
    seq![0x67u8, 0x61u8, 0x6Du8, 0x65u8, 0x73u8, 0x63u8, 0x6Fu8, 0x70u8, 0x65u8]
}

fn target_app_id_bytes() -> (v: Vec<u8>)
    ensures
        v@ == target_app_id(),
{
    let mut v: Vec<u8> = Vec::new();
    v.push(0x67);
    v.push(0x61);
    v.push(0x6D);
    v.push(0x65);
    v.push(0x73);
    v.push(0x63);
    v.push(0x6F);
    v.push(0x70);
    v.push(0x65);
    assert(v@ =~= target_app_id());
    v
}

/// Whether a focused window's application identifier is the target
/// application; an absent identifier never is.
pub open spec fn spec_is_target(app_id: Option<Seq<u8>>) -> bool {
    app_id matches Some(a) && a == target_app_id()
}

/// Whether the focused window is the target application.
pub fn is_target_app(app_id: Option<&[u8]>) -> (r: bool)
    ensures
        r == spec_is_target(
            match app_id {
                Some(a) => Some(a@),
                None => None,
            },
        ),
{
    match app_id {
        None => false,
        Some(a) => {
            let target = target_app_id_bytes();
            crate::bytes::slice_eq(a, target.as_slice())
        },
    }
}

/// The command client: owns the one live device handle and the game-mode
/// flag, which is true exactly when the firmware has acknowledged an ENTER
/// it has not since been told to leave.
pub struct GameModeController {
    /// The open device handle, exclusively owned.
    pub device: hidapi::HidDevice,
    /// Whether the firmware has been told to enter game mode.  Changes only
    /// on a successful transaction.
    pub current_state: bool,
}

impl GameModeController {
    /// Wraps a freshly acquired device; a fresh device is assumed to start
    /// outside game mode.
    pub fn new(device: hidapi::HidDevice) -> (r: Self)
        ensures
            r.device == device,
            !r.current_state,
    {
        GameModeController { device, current_state: false }
    }

    /// Sends one command frame and classifies the acknowledgement read back
    /// within the timeout.  The game-mode flag is never touched here: no
    /// retry, no state change — the caller owns both policies.
    pub fn send_command(&mut self, command: u8) -> (r: Result<(), ProtocolError>)
        ensures
            *final(self) == *old(self),
    {
        let frame = make_command_frame(command);
        let written = hid_write(&self.device, frame.as_slice());
        if written.is_err() {
            return Err(ProtocolError::TransportError);
        }
        let response = match hid_read_timeout(&self.device, FRAME_SIZE, COMMAND_TIMEOUT_MS) {
            Ok(v) => v,
            Err(_) => {
                return Err(ProtocolError::TransportError);
            },
        };
        classify_response(command, response.as_slice())
    }

    /// Tells the firmware to enter game mode.
    pub fn enter_game_mode(&mut self) -> (r: Result<(), ProtocolError>)
        ensures
            *final(self) == *old(self),
    {
        self.send_command(HID_CMD_ENTER_GAME_MODE)
    }

    /// Tells the firmware to exit game mode.
    pub fn exit_game_mode(&mut self) -> (r: Result<(), ProtocolError>)
        ensures
            *final(self) == *old(self),
    {
        self.send_command(HID_CMD_EXIT_GAME_MODE)
    }

    /// Reacts to a focus change: entering the target application outside
    /// game mode sends ENTER, leaving it in game mode sends EXIT, anything
    /// else is a no-op that always succeeds.  The flag moves exactly on a
    /// successful transaction, so on success it equals whether the target
    /// application is focused; a failure leaves it untouched (the caller
    /// then drops the device).
    pub fn handle_window_change(&mut self, app_id: Option<&[u8]>) -> (r: Result<(), ProtocolError>)
        ensures
            ({
                let is_target = spec_is_target(
                    match app_id {
                        Some(a) => Some(a@),
                        None => None,
                    },
                );
                &&& r is Ok ==> final(self).current_state == is_target
                &&& r is Err ==> final(self).current_state == old(self).current_state
                &&& is_target == old(self).current_state ==> (r is Ok && *final(self) == *old(
                    self,
                ))
            }),
    {
        let is_target = is_target_app(app_id);
        if is_target && !self.current_state {
            self.enter_game_mode()?;
            self.current_state = true;
            Ok(())
        } else if !is_target && self.current_state {
            self.exit_game_mode()?;
            self.current_state = false;
            Ok(())
        } else {
            Ok(())
        }
    }
}

} // verus!
