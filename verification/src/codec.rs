//! Frame codec for the relay-board wire protocol: request frames are exactly
//! four bytes `[MAGIC, command, arg1, arg2]`; response frames are a magic
//! byte, a response-kind byte, and optional payload bytes.

use vstd::prelude::*;

verus! {

/// Sentinel byte that prefixes every request and every accepted response
/// frame; a response that does not start with it is rejected outright.
pub const MAGIC: u8 = 0xA5;

/// A command the client can issue, one variant per wire code.
#[derive(Clone, Copy, Debug, PartialEq, Eq, Structural)]
pub enum Command {
    /// Liveness probe (wire code 0x01); the device answers with a pong.
    Ping,
    /// Ask for the relay-state bitmask (wire code 0x02).
    GetStatus,
    /// Switch a single relay on or off (wire code 0x03).
    SetRelay,
    /// Flip a single relay (wire code 0x04).
    ToggleRelay,
    /// Set every relay at once from a bitmask (wire code 0x05).
    SetAll,
}

/// The kind of a device reply, one variant per wire code. Any other
/// response-kind byte is a decode failure: no unknown code is accepted.
#[derive(Clone, Copy, Debug, PartialEq, Eq, Structural)]
pub enum ResponseKind {
    /// The device accepted the command (wire code 0x00).
    Ack,
    /// The device rejected the command (wire code 0x01); the payload byte at
    /// index 3, when present, carries its error code.
    Nak,
    /// A status report (wire code 0x02); the payload byte at index 3 is the
    /// relay-state bitmask.
    Status,
    /// Answer to a ping (wire code 0x03).
    Pong,
}

/// Everything that can go wrong when interpreting a device reply.
#[derive(Clone, Copy, Debug, PartialEq, Eq, Structural)]
pub enum RelayError {
    /// The reply was empty or did not start with [`MAGIC`].
    InvalidMagic,
    /// The response-kind byte was outside the recognized set; carries the
    /// offending byte.
    UnknownResponseType(u8),
    /// The reply to a ping was too short or not a pong.
    InvalidPingResponse,
    /// The reply to a status query was too short or not a status report.
    InvalidStatusResponse,
    /// The reply to a set, toggle or set-all was too short or of an
    /// unexpected kind.
    InvalidResponse,
    /// The device rejected the command; carries the device-supplied error
    /// code, or the sentinel 0xFF when the reply omitted it.
    DeviceError(u8),
}

/// Wire code of a command.
pub open spec fn spec_command_code(cmd: Command) -> u8 {
    match cmd {
        Command::Ping => 0x01,
        Command::GetStatus => 0x02,
        Command::SetRelay => 0x03,
        Command::ToggleRelay => 0x04,
        Command::SetAll => 0x05,
    }
}

/// Wire code of a command.
#[verifier::when_used_as_spec(spec_command_code)]
pub fn command_code(cmd: Command) -> (code: u8)
    ensures
        code == spec_command_code(cmd),
{
    match cmd {
        Command::Ping => 0x01,
        Command::GetStatus => 0x02,
        Command::SetRelay => 0x03,
        Command::ToggleRelay => 0x04,
        Command::SetAll => 0x05,
    }
}

/// The command a wire code stands for, if any.
pub open spec fn spec_parse_command(code: u8) -> Option<Command> {
    if code == 0x01 {
        Some(Command::Ping)
    } else if code == 0x02 {
        Some(Command::GetStatus)
    } else if code == 0x03 {
        Some(Command::SetRelay)
    } else if code == 0x04 {
        Some(Command::ToggleRelay)
    } else if code == 0x05 {
        Some(Command::SetAll)
    } else {
        None
    }
}

/// The command a wire code stands for, if any.
#[verifier::when_used_as_spec(spec_parse_command)]
pub fn parse_command(code: u8) -> (cmd: Option<Command>)
    ensures
        cmd == spec_parse_command(code),
{
    if code == 0x01 {
        Some(Command::Ping)
    } else if code == 0x02 {
        Some(Command::GetStatus)
    } else if code == 0x03 {
        Some(Command::SetRelay)
    } else if code == 0x04 {
        Some(Command::ToggleRelay)
    } else if code == 0x05 {
        Some(Command::SetAll)
    } else {
        None
    }
}

/// Law: encoding a command to its wire code and parsing that code back
/// always recovers the same command.
pub proof fn lemma_command_code_round_trip(cmd: Command)
    ensures
        spec_parse_command(spec_command_code(cmd)) == Some(cmd),
{
}

/// The exact four bytes of a request frame.
pub open spec fn spec_request(cmd: Command, arg1: u8, arg2: u8) -> Seq<u8> {
    seq![MAGIC, spec_command_code(cmd), arg1, arg2]
}

/// Build the request frame for a command and its two argument bytes. Every
/// byte value is accepted as an argument: range checks are the caller's.
pub fn encode_request(cmd: Command, arg1: u8, arg2: u8) -> (frame: Vec<u8>)
    ensures
        frame@ == spec_request(cmd, arg1, arg2),
{
    let mut frame: Vec<u8> = Vec::new();
    frame.push(MAGIC);
    frame.push(command_code(cmd));
    frame.push(arg1);
    frame.push(arg2);
    proof {
        assert(frame@ =~= spec_request(cmd, arg1, arg2));
    }
    frame
}

/// The outcome of decoding a response-kind byte: the four declared codes map
/// to their kinds, every other byte fails carrying that byte.
pub open spec fn spec_decode_response_kind(byte: u8) -> Result<ResponseKind, RelayError> {
    if byte == 0x00 {
        Ok(ResponseKind::Ack)
    } else if byte == 0x01 {
        Ok(ResponseKind::Nak)
    } else if byte == 0x02 {
        Ok(ResponseKind::Status)
    } else if byte == 0x03 {
        Ok(ResponseKind::Pong)
    } else {
        Err(RelayError::UnknownResponseType(byte))
    }
}

/// Decode the response-kind byte of a reply.
#[verifier::when_used_as_spec(spec_decode_response_kind)]
pub fn decode_response_kind(byte: u8) -> (kind: Result<ResponseKind, RelayError>)
    ensures
        kind == spec_decode_response_kind(byte),
{
    if byte == 0x00 {
        Ok(ResponseKind::Ack)
    } else if byte == 0x01 {
        Ok(ResponseKind::Nak)
    } else if byte == 0x02 {
        Ok(ResponseKind::Status)
    } else if byte == 0x03 {
        Ok(ResponseKind::Pong)
    } else {
        Err(RelayError::UnknownResponseType(byte))
    }
}

/// A response envelope is sound when the buffer is non-empty and opens with
/// the magic byte.
pub open spec fn envelope_ok(resp: Seq<u8>) -> bool {
    resp.len() > 0 && resp[0] == MAGIC
}

/// The outcome of validating a response envelope.
pub open spec fn spec_validate_envelope(resp: Seq<u8>) -> Result<(), RelayError> {
    if envelope_ok(resp) {
        Ok(())
    } else {
        Err(RelayError::InvalidMagic)
    }
}

/// Reject a reply that is empty or does not open with the magic byte. This
/// check comes before any attempt to read further bytes.
pub fn validate_envelope(resp: &Vec<u8>) -> (r: Result<(), RelayError>)
    ensures
        r == spec_validate_envelope(resp@),
{
    if resp.len() == 0 || resp[0] != MAGIC {
        Err(RelayError::InvalidMagic)
    } else {
        Ok(())
    }
}

} // verus!
