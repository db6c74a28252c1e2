use gpconnect::libs::error::VpnError;
use gpconnect::libs::tunnel::{
    downlink_advance, downlink_start, parse_frame_header, uplink_advance, uplink_start,
    AddressKey, DownlinkStep, TunnelFrame, UplinkStep, CMD_UDP, FRAME_HEADER_LEN, KEY_LEN,
};

fn dns_key() -> AddressKey {
    AddressKey { src_ip: [10, 0, 0, 1], src_port: 1234, dst_ip: [8, 8, 8, 8], dst_port: 53 }
}

#[test]
fn datagram_mode_byte() {
    assert_eq!(CMD_UDP, 0x01);
    assert_eq!(KEY_LEN, 12);
    assert_eq!(FRAME_HEADER_LEN, 14);
}

#[test]
fn mux_frame_round_trip() {
    let payload = b"eighteen bytes ok!";
    assert_eq!(payload.len(), 18);
    let frame = TunnelFrame { key: dns_key(), payload: payload.to_vec() };
    let bytes = frame.to_bytes().unwrap();
    assert_eq!(bytes.len(), 14 + 18);
    let back = TunnelFrame::from_bytes(&bytes).unwrap();
    assert_eq!(back.key, dns_key());
    assert_eq!(back.payload, payload.to_vec());
    assert_eq!(back, frame);
}

#[test]
fn mux_frame_bytes_are_key_length_payload() {
    let frame = TunnelFrame { key: dns_key(), payload: vec![0xde, 0xad, 0xbe, 0xef] };
    assert_eq!(
        hex::encode(frame.to_bytes().unwrap()),
        "0a00000104d20808080800350004deadbeef"
    );
}

#[test]
fn address_key_bytes() {
    let bytes = dns_key().to_bytes();
    assert_eq!(bytes, vec![10, 0, 0, 1, 0x04, 0xd2, 8, 8, 8, 8, 0x00, 0x35]);
    assert_eq!(AddressKey::from_bytes(&bytes), Ok(dns_key()));
    let mut longer = bytes.clone();
    longer.push(0xff);
    assert_eq!(AddressKey::from_bytes(&longer), Ok(dns_key()));
}

#[test]
fn short_address_key_is_malformed() {
    let bytes = dns_key().to_bytes();
    let mut len: usize = 0;
    while len < 12 {
        assert_eq!(AddressKey::from_bytes(&bytes[..len]), Err(VpnError::MalformedPacket));
        len += 1;
    }
}

#[test]
fn frame_header_gives_key_and_length() {
    let frame = TunnelFrame { key: dns_key(), payload: vec![0u8; 300] };
    let bytes = frame.to_bytes().unwrap();
    assert_eq!(parse_frame_header(&bytes[..14]), Ok((dns_key(), 300)));
    assert_eq!(parse_frame_header(&bytes[..13]), Err(VpnError::MalformedPacket));
    assert_eq!(parse_frame_header(&bytes[..15]), Err(VpnError::MalformedPacket));
    assert_eq!(parse_frame_header(&[]), Err(VpnError::MalformedPacket));
}

#[test]
fn empty_and_largest_payloads_are_framed() {
    let empty = TunnelFrame { key: dns_key(), payload: Vec::new() };
    let bytes = empty.to_bytes().unwrap();
    assert_eq!(bytes.len(), 14);
    assert_eq!(&bytes[12..], &[0, 0]);
    assert_eq!(TunnelFrame::from_bytes(&bytes), Ok(empty));

    let largest = TunnelFrame { key: dns_key(), payload: vec![0x77u8; 65535] };
    let bytes = largest.to_bytes().unwrap();
    assert_eq!(bytes.len(), 14 + 65535);
    assert_eq!(&bytes[12..14], &[0xff, 0xff]);
    assert_eq!(TunnelFrame::from_bytes(&bytes), Ok(largest));
}

#[test]
fn payload_too_long_for_the_length_field() {
    let frame = TunnelFrame { key: dns_key(), payload: vec![0u8; 65536] };
    assert_eq!(frame.to_bytes(), Err(VpnError::MalformedPacket));
}

#[test]
fn frame_must_be_whole() {
    let frame = TunnelFrame { key: dns_key(), payload: vec![1, 2, 3, 4, 5] };
    let bytes = frame.to_bytes().unwrap();
    let mut len: usize = 0;
    while len < bytes.len() {
        assert_eq!(TunnelFrame::from_bytes(&bytes[..len]), Err(VpnError::MalformedPacket));
        len += 1;
    }
    let mut longer = bytes.clone();
    longer.push(6);
    assert_eq!(TunnelFrame::from_bytes(&longer), Err(VpnError::MalformedPacket));
    assert_eq!(TunnelFrame::from_bytes(&bytes), Ok(frame));
}

#[test]
fn frames_of_many_shapes_survive() {
    let mut n: usize = 0;
    while n < 200 {
        let key = AddressKey {
            src_ip: [n as u8, 1, 2, 3],
            src_port: (n * 331) as u16,
            dst_ip: [255, 254, n as u8, 0],
            dst_port: 65535 - n as u16,
        };
        let frame = TunnelFrame { key, payload: vec![n as u8; n * 3] };
        let bytes = frame.to_bytes().unwrap();
        assert_eq!(TunnelFrame::from_bytes(&bytes), Ok(frame));
        n += 1;
    }
}

#[test]
fn uplink_goes_round_while_the_flag_is_set() {
    assert_eq!(uplink_start(true), (UplinkStep::Pull, true));
    assert_eq!(uplink_advance(UplinkStep::Pull, true, true), (UplinkStep::Write, true));
    assert_eq!(uplink_advance(UplinkStep::Write, true, true), (UplinkStep::Flush, true));
    assert_eq!(uplink_advance(UplinkStep::Flush, true, true), (UplinkStep::Pull, true));
}

#[test]
fn uplink_stops_on_failure_and_clears_the_flag() {
    for step in [UplinkStep::Pull, UplinkStep::Write, UplinkStep::Flush, UplinkStep::Stop] {
        assert_eq!(uplink_advance(step, false, true), (UplinkStep::Stop, false));
        assert_eq!(uplink_advance(step, false, false), (UplinkStep::Stop, false));
    }
    assert_eq!(uplink_advance(UplinkStep::Stop, true, true), (UplinkStep::Stop, false));
}

#[test]
fn uplink_stops_at_its_next_look_at_a_cleared_flag() {
    assert_eq!(uplink_start(false), (UplinkStep::Stop, false));
    assert_eq!(uplink_advance(UplinkStep::Pull, true, false), (UplinkStep::Write, false));
    assert_eq!(uplink_advance(UplinkStep::Write, true, false), (UplinkStep::Flush, false));
    assert_eq!(uplink_advance(UplinkStep::Flush, true, false), (UplinkStep::Stop, false));
}

#[test]
fn downlink_goes_round_while_the_flag_is_set() {
    assert_eq!(downlink_start(true), (DownlinkStep::ReadKey, true));
    assert_eq!(
        downlink_advance(DownlinkStep::ReadKey, true, true),
        (DownlinkStep::ReadLength, true)
    );
    assert_eq!(
        downlink_advance(DownlinkStep::ReadLength, true, true),
        (DownlinkStep::ReadPayload, true)
    );
    assert_eq!(
        downlink_advance(DownlinkStep::ReadPayload, true, true),
        (DownlinkStep::Deliver, true)
    );
    assert_eq!(downlink_advance(DownlinkStep::Deliver, true, true), (DownlinkStep::ReadKey, true));
}

#[test]
fn downlink_stops_on_failure_and_clears_the_flag() {
    let steps = [
        DownlinkStep::ReadKey,
        DownlinkStep::ReadLength,
        DownlinkStep::ReadPayload,
        DownlinkStep::Deliver,
        DownlinkStep::Stop,
    ];
    for step in steps {
        assert_eq!(downlink_advance(step, false, true), (DownlinkStep::Stop, false));
        assert_eq!(downlink_advance(step, false, false), (DownlinkStep::Stop, false));
    }
    assert_eq!(downlink_advance(DownlinkStep::Stop, true, true), (DownlinkStep::Stop, false));
}

#[test]
fn downlink_stops_at_its_next_look_at_a_cleared_flag() {
    assert_eq!(downlink_start(false), (DownlinkStep::Stop, false));
    assert_eq!(
        downlink_advance(DownlinkStep::ReadPayload, true, false),
        (DownlinkStep::Deliver, false)
    );
    assert_eq!(downlink_advance(DownlinkStep::Deliver, true, false), (DownlinkStep::Stop, false));
}
