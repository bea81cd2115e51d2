//! The fixed-size request/acknowledge command protocol spoken over the raw
//! HID interface: 32-byte frames whose first byte carries the opcode, the
//! rest reserved and zero; the acknowledgement echoes the opcode on success
//! or answers 0xFF on firmware-side rejection.

use vstd::prelude::*;

verus! {

/// Size in bytes of a command frame and of an acknowledgement frame.
pub const FRAME_SIZE: usize = 32;

/// Byte the firmware answers when it rejects a command.
pub const ACK_REJECTED: u8 = 0xFF;

/// Why a command transaction failed.  Every variant is treated by the
/// controller as "device lost".
#[derive(Clone, Copy, Debug, PartialEq, Eq, Structural)]
pub enum ProtocolError {
    /// The write to the device failed, or the read returned a transport
    /// error.
    TransportError,
    /// The read timed out or returned zero bytes.
    NoResponseError,
    /// The firmware answered 0xFF: it rejected the command.
    FirmwareRejectedError,
    /// The firmware answered a byte that is neither the sent opcode nor
    /// 0xFF.
    UnexpectedResponseError,
}

/// Builds the command frame for one opcode: byte 0 carries the opcode, the
/// remaining bytes are reserved and must be zero.
pub fn make_command_frame(opcode: u8) -> (frame: Vec<u8>)
    ensures
        frame@.len() == FRAME_SIZE,
        frame@[0] == opcode,
        forall|i: int| 1 <= i < FRAME_SIZE ==> frame@[i] == 0u8,
{
    let mut frame: Vec<u8> = Vec::new();
    frame.push(opcode);
    while frame.len() < FRAME_SIZE
        invariant
            1 <= frame@.len() <= FRAME_SIZE,
            frame@[0] == opcode,
            forall|i: int| 1 <= i < frame@.len() ==> frame@[i] == 0u8,
        decreases FRAME_SIZE - frame@.len(),
    {
        frame.push(0u8);
    }
    frame
}

/// What a response to `opcode` means, in the order the protocol checks it:
/// no bytes at all mean no response; an echoed opcode means success; 0xFF
/// means the firmware rejected the command; anything else is unexpected.
pub open spec fn spec_classify_response(opcode: u8, response: Seq<u8>) -> Result<(), ProtocolError> {
    if response.len() == 0 {
        Err(ProtocolError::NoResponseError)
    } else if response[0] == opcode {
        Ok(())
    } else if response[0] == ACK_REJECTED {
        Err(ProtocolError::FirmwareRejectedError)
    } else {
        Err(ProtocolError::UnexpectedResponseError)
    }
}

/// Classifies the bytes read back after sending `opcode`.
pub fn classify_response(opcode: u8, response: &[u8]) -> (r: Result<(), ProtocolError>)
    ensures
        r == spec_classify_response(opcode, response@),
{
    if response.len() == 0 {
        Err(ProtocolError::NoResponseError)
    } else if response[0] == opcode {
        Ok(())
    } else if response[0] == ACK_REJECTED {
        Err(ProtocolError::FirmwareRejectedError)
    } else {
        Err(ProtocolError::UnexpectedResponseError)
    }
}

} // verus!
