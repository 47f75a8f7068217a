//! Relay-board client operations: for each command, the exact request frame
//! to send and the interpretation of the device's raw reply into a typed
//! result or error. The transport itself (one fresh connection per exchange)
//! lives outside this library; each operation here is pure on the bytes the
//! transport hands back.

use vstd::prelude::*;
use vstd::string::StringExecFns;

use crate::codec::{
    Command, RelayError, ResponseKind, decode_response_kind, encode_request, envelope_ok,
    spec_decode_response_kind, spec_request, validate_envelope,
};

verus! {

/// Seconds allowed for each read and each write of one exchange.
pub const DEFAULT_TIMEOUT_SECS: u64 = 2;

/// Most bytes ever read from one reply; a shorter read is the whole reply.
pub const MAX_RESPONSE_LEN: usize = 64;

/// A client for one relay board: the target address and the read/write
/// timeout, both fixed for the client's lifetime.
pub struct RelayClient {
    /// Target address, as `host:port`.
    pub addr: String,
    /// Read and write timeout of one exchange, in seconds.
    pub timeout_secs: u64,
}

/// The outcome of interpreting a ping reply: a pong succeeds; any other
/// recognized kind, or a reply of fewer than two bytes, is an invalid ping
/// response; a bad envelope or an unknown kind byte fails as such.
pub open spec fn spec_ping_result(resp: Seq<u8>) -> Result<(), RelayError> {
    if !envelope_ok(resp) {
        Err(RelayError::InvalidMagic)
    } else if resp.len() >= 2 {
        match spec_decode_response_kind(resp[1]) {
            Ok(ResponseKind::Pong) => Ok(()),
            Ok(_) => Err(RelayError::InvalidPingResponse),
            Err(e) => Err(e),
        }
    } else {
        Err(RelayError::InvalidPingResponse)
    }
}

/// The outcome of interpreting a status reply: a status report of at least
/// four bytes yields the bitmask byte at index 3; a shorter reply is an
/// invalid status response before its kind byte is even decoded.
pub open spec fn spec_status_result(resp: Seq<u8>) -> Result<u8, RelayError> {
    if !envelope_ok(resp) {
        Err(RelayError::InvalidMagic)
    } else if resp.len() >= 4 {
        match spec_decode_response_kind(resp[1]) {
            Ok(ResponseKind::Status) => Ok(resp[3]),
            Ok(_) => Err(RelayError::InvalidStatusResponse),
            Err(e) => Err(e),
        }
    } else {
        Err(RelayError::InvalidStatusResponse)
    }
}

/// The outcome of interpreting an acknowledgement-style reply. An ack
/// succeeds. When `device_errors` is set, a nak becomes a device error whose
/// code is the byte at index 3, or the sentinel 0xFF when the reply is too
/// short to carry one; otherwise a nak is merely an invalid response, like
/// every other unexpected kind or a reply of fewer than two bytes.
pub open spec fn spec_ack_result(resp: Seq<u8>, device_errors: bool) -> Result<(), RelayError> {
    if !envelope_ok(resp) {
        Err(RelayError::InvalidMagic)
    } else if resp.len() >= 2 {
        match spec_decode_response_kind(resp[1]) {
            Ok(ResponseKind::Ack) => Ok(()),
            Ok(ResponseKind::Nak) => {
                if device_errors {
                    Err(RelayError::DeviceError(if resp.len() >= 4 {
                        resp[3]
                    } else {
                        0xFF
                    }))
                } else {
                    Err(RelayError::InvalidResponse)
                }
            },
            Ok(_) => Err(RelayError::InvalidResponse),
            Err(e) => Err(e),
        }
    } else {
        Err(RelayError::InvalidResponse)
    }
}

/// Shared interpretation of the replies to SetRelay, ToggleRelay and SetAll,
/// which differ only in whether a nak is reported as a device error.
fn interpret_ack(resp: &Vec<u8>, device_errors: bool) -> (r: Result<(), RelayError>)
    ensures
        r == spec_ack_result(resp@, device_errors),
{
    if let Err(e) = validate_envelope(resp) {
        return Err(e);
    }
    if resp.len() >= 2 {
        match decode_response_kind(resp[1]) {
            Ok(ResponseKind::Ack) => Ok(()),
            Ok(ResponseKind::Nak) => {
                if device_errors {
                    let code: u8 = if resp.len() >= 4 {
                        resp[3]
                    } else {
                        0xFF
                    };
                    Err(RelayError::DeviceError(code))
                } else {
                    Err(RelayError::InvalidResponse)
                }
            },
            Ok(_) => Err(RelayError::InvalidResponse),
            Err(e) => Err(e),
        }
    } else {
        Err(RelayError::InvalidResponse)
    }
}

impl RelayClient {
    /// A client for the board at `addr`, with the default timeout.
    pub fn new(addr: &str) -> (client: Self)
        ensures
            client.addr@ == addr@,
            client.timeout_secs == DEFAULT_TIMEOUT_SECS,
    {
        RelayClient { addr: String::from_str(addr), timeout_secs: DEFAULT_TIMEOUT_SECS }
    }

    /// Frame to send for a ping exchange.
    pub fn ping_request(&self) -> (frame: Vec<u8>)
        ensures
            frame@ == spec_request(Command::Ping, 0, 0),
    {
        encode_request(Command::Ping, 0, 0)
    }

    /// Interpret the device's reply to a ping exchange.
    pub fn ping(&self, resp: &Vec<u8>) -> (r: Result<(), RelayError>)
        ensures
            r == spec_ping_result(resp@),
    {
        if let Err(e) = validate_envelope(resp) {
            return Err(e);
        }
        if resp.len() >= 2 {
            match decode_response_kind(resp[1]) {
                Ok(ResponseKind::Pong) => Ok(()),
                Ok(_) => Err(RelayError::InvalidPingResponse),
                Err(e) => Err(e),
            }
        } else {
            Err(RelayError::InvalidPingResponse)
        }
    }

    /// Frame to send for a status exchange.
    pub fn get_status_request(&self) -> (frame: Vec<u8>)
        ensures
            frame@ == spec_request(Command::GetStatus, 0, 0),
    {
        encode_request(Command::GetStatus, 0, 0)
    }

    /// Interpret the device's reply to a status exchange; on success the
    /// result is the 8-bit relay-state bitmask, bit `i` being relay `i`.
    pub fn get_status(&self, resp: &Vec<u8>) -> (r: Result<u8, RelayError>)
        ensures
            r == spec_status_result(resp@),
    {
        if let Err(e) = validate_envelope(resp) {
            return Err(e);
        }
        if resp.len() >= 4 {
            match decode_response_kind(resp[1]) {
                Ok(ResponseKind::Status) => Ok(resp[3]),
                Ok(_) => Err(RelayError::InvalidStatusResponse),
                Err(e) => Err(e),
            }
        } else {
            Err(RelayError::InvalidStatusResponse)
        }
    }

    /// Frame to send to switch relay `relay_id` on (`state` true) or off.
    pub fn set_relay_request(&self, relay_id: u8, state: bool) -> (frame: Vec<u8>)
        ensures
            frame@ == spec_request(
                Command::SetRelay,
                relay_id,
                if state {
                    1u8
                } else {
                    0u8
                },
            ),
    {
        let value: u8 = if state {
            1
        } else {
            0
        };
        encode_request(Command::SetRelay, relay_id, value)
    }

    /// Interpret the device's reply to a set-relay exchange: an ack succeeds
    /// and a nak is reported as a device error with its code.
    pub fn set_relay(&self, resp: &Vec<u8>) -> (r: Result<(), RelayError>)
        ensures
            r == spec_ack_result(resp@, true),
    {
        interpret_ack(resp, true)
    }

    /// Frame to send to flip relay `relay_id`.
    pub fn toggle_relay_request(&self, relay_id: u8) -> (frame: Vec<u8>)
        ensures
            frame@ == spec_request(Command::ToggleRelay, relay_id, 0),
    {
        encode_request(Command::ToggleRelay, relay_id, 0)
    }

    /// Interpret the device's reply to a toggle exchange; the handling is the
    /// same as for a set-relay exchange.
    pub fn toggle_relay(&self, resp: &Vec<u8>) -> (r: Result<(), RelayError>)
        ensures
            r == spec_ack_result(resp@, true),
    {
        interpret_ack(resp, true)
    }

    /// Frame to send to set every relay at once from `bitmask`.
    pub fn set_all_request(&self, bitmask: u8) -> (frame: Vec<u8>)
        ensures
            frame@ == spec_request(Command::SetAll, bitmask, 0),
    {
        encode_request(Command::SetAll, bitmask, 0)
    }

    /// Interpret the device's reply to a set-all exchange: only an ack
    /// succeeds, and a nak is not given the device-error treatment.
    pub fn set_all(&self, resp: &Vec<u8>) -> (r: Result<(), RelayError>)
        ensures
            r == spec_ack_result(resp@, false),
    {
        interpret_ack(resp, false)
    }
}

/// Whether bit `index` of a status bitmask reports its relay as on.
pub open spec fn spec_relay_on(status: u8, index: u8) -> bool {
    (status >> index) & 1 == 1
}

/// Whether bit `index` of the status bitmask `status` reports relay `index`
/// as on.
pub fn relay_state(status: u8, index: u8) -> (on: bool)
    requires
        index < 8,
    ensures
        on == spec_relay_on(status, index),
{
    (status >> index) & 1 == 1
}

/// The on/off state of relays `0..num_relays`, read from a status bitmask.
pub fn relay_states(status: u8, num_relays: usize) -> (states: Vec<bool>)
    requires
        num_relays <= 8,
    ensures
        states@.len() == num_relays,
        forall|i: int| 0 <= i < num_relays ==> states@[i] == spec_relay_on(status, i as u8),
{
    let mut states: Vec<bool> = Vec::new();
    let mut i: usize = 0;
    while i < num_relays
        invariant
            i <= num_relays,
            num_relays <= 8,
            states@.len() == i,
            forall|j: int| 0 <= j < i ==> states@[j] == spec_relay_on(status, j as u8),
        decreases num_relays - i,
    {
        let on = relay_state(status, i as u8);
        states.push(on);
        i = i + 1;
    }
    states
}

} // verus!
