use relayctl::client::{DEFAULT_TIMEOUT_SECS, RelayClient, relay_state, relay_states};
use relayctl::codec::RelayError;

fn client() -> RelayClient {
    RelayClient::new("192.0.2.10:5020")
}

#[test]
fn new_stores_the_address_and_the_default_timeout() {
    let c = client();
    assert_eq!(c.addr, "192.0.2.10:5020");
    assert_eq!(c.timeout_secs, DEFAULT_TIMEOUT_SECS);
    assert_eq!(c.timeout_secs, 2);
}

#[test]
fn request_frames_carry_the_command_code_and_arguments() {
    let c = client();
    assert_eq!(c.ping_request(), vec![0xA5, 0x01, 0x00, 0x00]);
    assert_eq!(c.get_status_request(), vec![0xA5, 0x02, 0x00, 0x00]);
    assert_eq!(c.set_relay_request(3, true), vec![0xA5, 0x03, 0x03, 0x01]);
    assert_eq!(c.set_relay_request(3, false), vec![0xA5, 0x03, 0x03, 0x00]);
    assert_eq!(c.toggle_relay_request(6), vec![0xA5, 0x04, 0x06, 0x00]);
    assert_eq!(c.set_all_request(0xFF), vec![0xA5, 0x05, 0xFF, 0x00]);
}

#[test]
fn ping_accepts_a_pong_reply() {
    assert_eq!(client().ping(&vec![0xA5, 0x03]), Ok(()));
}

#[test]
fn ping_rejects_an_ack_in_place_of_a_pong() {
    assert_eq!(
        client().ping(&vec![0xA5, 0x00]),
        Err(RelayError::InvalidPingResponse)
    );
}

#[test]
fn ping_rejects_a_one_byte_reply() {
    assert_eq!(client().ping(&vec![0xA5]), Err(RelayError::InvalidPingResponse));
}

#[test]
fn ping_reports_an_unknown_kind_byte() {
    assert_eq!(
        client().ping(&vec![0xA5, 0x09]),
        Err(RelayError::UnknownResponseType(0x09))
    );
}

#[test]
fn ping_rejects_a_bad_envelope_before_anything_else() {
    assert_eq!(client().ping(&vec![0x5A, 0x03]), Err(RelayError::InvalidMagic));
    assert_eq!(client().ping(&vec![]), Err(RelayError::InvalidMagic));
}

#[test]
fn get_status_returns_the_bitmask_byte() {
    assert_eq!(client().get_status(&vec![0xA5, 0x02, 0x00, 0b0000_0101]), Ok(5));
}

#[test]
fn get_status_rejects_a_reply_too_short_for_the_bitmask() {
    assert_eq!(
        client().get_status(&vec![0xA5, 0x02]),
        Err(RelayError::InvalidStatusResponse)
    );
}

#[test]
fn get_status_rejects_a_non_status_kind() {
    assert_eq!(
        client().get_status(&vec![0xA5, 0x00, 0x00, 0x05]),
        Err(RelayError::InvalidStatusResponse)
    );
}

#[test]
fn get_status_reports_an_unknown_kind_byte_in_a_full_reply() {
    assert_eq!(
        client().get_status(&vec![0xA5, 0x09, 0x00, 0x00]),
        Err(RelayError::UnknownResponseType(0x09))
    );
}

#[test]
fn get_status_never_decodes_the_kind_of_a_short_reply() {
    assert_eq!(
        client().get_status(&vec![0xA5, 0x09, 0x00]),
        Err(RelayError::InvalidStatusResponse)
    );
}

#[test]
fn set_relay_succeeds_on_an_ack() {
    assert_eq!(client().set_relay(&vec![0xA5, 0x00]), Ok(()));
}

#[test]
fn set_relay_reports_the_device_error_code_of_a_nak() {
    assert_eq!(
        client().set_relay(&vec![0xA5, 0x01, 0x00, 0x07]),
        Err(RelayError::DeviceError(0x07))
    );
}

#[test]
fn set_relay_reports_the_sentinel_code_when_a_nak_omits_it() {
    assert_eq!(
        client().set_relay(&vec![0xA5, 0x01]),
        Err(RelayError::DeviceError(0xFF))
    );
}

#[test]
fn set_relay_rejects_an_unexpected_kind_or_a_short_reply() {
    assert_eq!(client().set_relay(&vec![0xA5, 0x03]), Err(RelayError::InvalidResponse));
    assert_eq!(client().set_relay(&vec![0xA5]), Err(RelayError::InvalidResponse));
}

#[test]
fn toggle_relay_handles_ack_and_nak_like_set_relay() {
    assert_eq!(client().toggle_relay(&vec![0xA5, 0x00]), Ok(()));
    assert_eq!(
        client().toggle_relay(&vec![0xA5, 0x01, 0x00, 0x2A]),
        Err(RelayError::DeviceError(0x2A))
    );
    assert_eq!(
        client().toggle_relay(&vec![0xA5, 0x01]),
        Err(RelayError::DeviceError(0xFF))
    );
}

#[test]
fn set_all_succeeds_on_an_ack() {
    assert_eq!(client().set_all(&vec![0xA5, 0x00]), Ok(()));
}

#[test]
fn set_all_treats_a_nak_as_an_invalid_response() {
    assert_eq!(client().set_all(&vec![0xA5, 0x01]), Err(RelayError::InvalidResponse));
    assert_eq!(
        client().set_all(&vec![0xA5, 0x01, 0x00, 0x07]),
        Err(RelayError::InvalidResponse)
    );
}

#[test]
fn set_all_rejects_every_other_kind() {
    assert_eq!(client().set_all(&vec![0xA5, 0x02]), Err(RelayError::InvalidResponse));
    assert_eq!(client().set_all(&vec![0xA5, 0x03]), Err(RelayError::InvalidResponse));
}

#[test]
fn relay_state_reads_single_bits() {
    assert!(relay_state(0b0000_0101, 0));
    assert!(!relay_state(0b0000_0101, 1));
    assert!(relay_state(0b0000_0101, 2));
    assert!(relay_state(0b1000_0000, 7));
    assert!(!relay_state(0b1000_0000, 0));
}

#[test]
fn relay_states_lists_one_state_per_relay() {
    assert_eq!(
        relay_states(0b0000_0101, 8),
        vec![true, false, true, false, false, false, false, false]
    );
    assert_eq!(relay_states(0xFF, 8), vec![true; 8]);
    assert_eq!(relay_states(0b0000_0101, 3), vec![true, false, true]);
    assert_eq!(relay_states(0x00, 0), Vec::<bool>::new());
}
