//! The controller state machine.  `NoDevice` holds no device handle;
//! `Idle` and `InGameMode` both hold exactly one live handle and differ only
//! in whether the firmware has been told to enter game mode.
//!
//! The machine is pure: the outcomes decided outside of it (whether a
//! discovery attempt succeeded, whether a command transaction succeeded)
//! enter as inputs, so every run of the event loop, whatever the device and
//! the firmware did, is one path through these functions.

use vstd::prelude::*;
use crate::HID_CMD_ENTER_GAME_MODE;
use crate::HID_CMD_EXIT_GAME_MODE;

verus! {

/// The controller's state: whether a device handle is held, and whether the
/// firmware was told to enter game mode.
#[derive(Clone, Copy, Debug, PartialEq, Eq, Structural)]
pub enum SessionState {
    /// No live device handle.
    NoDevice,
    /// A device handle is held; the firmware is outside game mode.
    Idle,
    /// A device handle is held; the firmware is in game mode.
    InGameMode,
}

/// One event consumed by the event loop, bundled with the outcome of the
/// outside work it triggered.
#[derive(Clone, Copy, Debug, PartialEq, Eq, Structural)]
pub enum LoopEvent {
    /// A hotplug connect notification; `discovery_ok` is whether the
    /// discovery burst that follows it found and opened a device.
    Connected { discovery_ok: bool },
    /// A hotplug disconnect notification.
    Disconnected,
    /// A focus change; `is_target` is whether the newly focused window is
    /// the target application, `transaction_ok` whether the command
    /// transaction succeeded (read only if a command is issued at all).
    Focus { is_target: bool, transaction_ok: bool },
}

/// Number of device handles the state holds.
pub open spec fn spec_handles(s: SessionState) -> nat {
    if s is NoDevice {
        0
    } else {
        1
    }
}

/// Whether the firmware has been told to enter game mode.
pub open spec fn spec_in_game_mode(s: SessionState) -> bool {
    s is InGameMode
}

/// The command a focus change calls for: ENTER when the target application
/// gains focus outside game mode, EXIT when it loses focus in game mode,
/// nothing otherwise, and never anything without a device.
pub open spec fn spec_focus_command(s: SessionState, is_target: bool) -> Option<u8> {
    if s is NoDevice {
        None
    } else if is_target && !spec_in_game_mode(s) {
        Some(HID_CMD_ENTER_GAME_MODE)
    } else if !is_target && spec_in_game_mode(s) {
        Some(HID_CMD_EXIT_GAME_MODE)
    } else {
        None
    }
}

/// The state after one event.  A successful discovery yields a fresh `Idle`
/// session whatever was held before (the old handle, if any, is dropped in
/// the same step); a disconnect drops the handle; a focus change that calls
/// for a command moves with the transaction outcome — into the commanded
/// mode on success, to `NoDevice` on failure.
pub open spec fn spec_step(s: SessionState, e: LoopEvent) -> SessionState {
    match e {
        LoopEvent::Connected { discovery_ok } => if discovery_ok {
            SessionState::Idle
        } else {
            s
        },
        LoopEvent::Disconnected => SessionState::NoDevice,
        LoopEvent::Focus { is_target, transaction_ok } => {
            if spec_focus_command(s, is_target) is Some {
                if transaction_ok {
                    if is_target {
                        SessionState::InGameMode
                    } else {
                        SessionState::Idle
                    }
                } else {
                    SessionState::NoDevice
                }
            } else {
                s
            }
        },
    }
}

/// Whether the step opens a fresh device handle.
pub open spec fn spec_step_opens(s: SessionState, e: LoopEvent) -> bool {
    e matches LoopEvent::Connected { discovery_ok } && discovery_ok
}

/// Whether the step closes the handle held when it started.
pub open spec fn spec_step_closes(s: SessionState, e: LoopEvent) -> bool {
    spec_handles(s) == 1 && match e {
        LoopEvent::Connected { discovery_ok } => discovery_ok,
        LoopEvent::Disconnected => true,
        LoopEvent::Focus { is_target, transaction_ok } => spec_focus_command(s, is_target)
            is Some && !transaction_ok,
    }
}

/// The state after a whole sequence of events.
pub open spec fn spec_run(s: SessionState, es: Seq<LoopEvent>) -> SessionState
    decreases es.len(),
{
    if es.len() == 0 {
        s
    } else {
        spec_run(spec_step(s, es[0]), es.skip(1))
    }
}

/// Law: however the hotplug and focus events interleave, at most one device
/// handle is held at any point, and a step never opens a second handle: if
/// it opens one while one is held, it closes the held one in the same step.
pub proof fn lemma_at_most_one_handle(s: SessionState, es: Seq<LoopEvent>)
    ensures
        spec_handles(spec_run(s, es)) <= 1,
        forall|t: SessionState, e: LoopEvent|
            spec_step_opens(t, e) && spec_handles(t) == 1 ==> spec_step_closes(t, e),
        forall|t: SessionState, e: LoopEvent|
            spec_handles(spec_step(t, e)) == spec_handles(t) + (if spec_step_opens(t, e) {
                1int
            } else {
                0int
            }) - (if spec_step_closes(t, e) {
                1int
            } else {
                0int
            }),
    decreases es.len(),
{
    if es.len() > 0 {
        lemma_at_most_one_handle(spec_step(s, es[0]), es.skip(1));
    }
}

/// Law: the game-mode flag becomes true only through a successful ENTER
/// transaction, and becomes false only through a successful EXIT
/// transaction, the loss of the device, or a fresh acquisition — a failed
/// transaction never sets it, and a fresh acquisition always clears it.
pub proof fn lemma_game_mode_transitions(s: SessionState, e: LoopEvent)
    ensures
        !spec_in_game_mode(s) && spec_in_game_mode(spec_step(s, e)) ==> (e matches LoopEvent::Focus {
            is_target,
            transaction_ok,
        } && is_target && transaction_ok && spec_focus_command(s, is_target) == Some(
            HID_CMD_ENTER_GAME_MODE,
        )),
        spec_in_game_mode(s) && !spec_in_game_mode(spec_step(s, e)) ==> ((e matches LoopEvent::Focus {
            is_target,
            transaction_ok,
        } && !is_target && spec_focus_command(s, is_target) == Some(HID_CMD_EXIT_GAME_MODE))
            || (e matches LoopEvent::Connected { discovery_ok } && discovery_ok) || e
            is Disconnected),
        e matches LoopEvent::Connected { discovery_ok } && discovery_ok ==> spec_step(s, e)
            == SessionState::Idle,
{
}

/// Law: while a device is held outside game mode, a focus change to the
/// target application issues exactly one ENTER; once the transaction
/// succeeded, repeating the identical event issues nothing.
pub proof fn lemma_enter_idempotent(s: SessionState)
    requires
        s == SessionState::Idle,
    ensures
        spec_focus_command(s, true) == Some(HID_CMD_ENTER_GAME_MODE),
        spec_focus_command(
            spec_step(s, LoopEvent::Focus { is_target: true, transaction_ok: true }),
            true,
        ) is None,
{
}

/// Law: a failed ENTER or EXIT transaction releases the device, and from
/// `NoDevice` no further command is issued by any run that contains no
/// successful reconnection.
pub proof fn lemma_failure_releases_device(s: SessionState, is_target: bool, es: Seq<LoopEvent>)
    requires
        spec_focus_command(s, is_target) is Some,
        forall|i: int|
            0 <= i < es.len() ==> !((#[trigger] es[i]) matches LoopEvent::Connected { discovery_ok }
                && discovery_ok),
    ensures
        spec_step(s, LoopEvent::Focus { is_target, transaction_ok: false }) == SessionState::NoDevice,
        spec_run(SessionState::NoDevice, es) == SessionState::NoDevice,
        forall|t: bool| spec_focus_command(spec_run(SessionState::NoDevice, es), t) is None,
    decreases es.len(),
{
    if es.len() > 0 {
        assert(spec_step(SessionState::NoDevice, es[0]) == SessionState::NoDevice);
        lemma_failure_releases_device(
            s,
            is_target,
            es.skip(1),
        );
    }
}

/// The command, if any, that a focus change calls for in the current state.
pub fn focus_command(s: SessionState, is_target: bool) -> (cmd: Option<u8>)
    ensures
        cmd == spec_focus_command(s, is_target),
{
    match s {
        SessionState::NoDevice => None,
        SessionState::Idle => if is_target {
            Some(HID_CMD_ENTER_GAME_MODE)
        } else {
            None
        },
        SessionState::InGameMode => if is_target {
            None
        } else {
            Some(HID_CMD_EXIT_GAME_MODE)
        },
    }
}

/// The state after one event.
pub fn step(s: SessionState, e: LoopEvent) -> (t: SessionState)
    ensures
        t == spec_step(s, e),
{
    match e {
        LoopEvent::Connected { discovery_ok } => if discovery_ok {
            SessionState::Idle
        } else {
            s
        },
        LoopEvent::Disconnected => SessionState::NoDevice,
        LoopEvent::Focus { is_target, transaction_ok } => {
            match focus_command(s, is_target) {
                Some(_) => if transaction_ok {
                    if is_target {
                        SessionState::InGameMode
                    } else {
                        SessionState::Idle
                    }
                } else {
                    SessionState::NoDevice
                },
                None => s,
            }
        },
    }
}

} // verus!
