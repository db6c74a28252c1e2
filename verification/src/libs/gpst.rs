//! The liveness probe: an ICMP echo request inside a synthetic IPv4 packet,
//! sealed as an ESP packet, and the check of the gateway's echo.

use vstd::prelude::*;
use crate::libs::checksum::{
    fold_carries, folded_sum, icmp_checksum, internet_checksum, ipv4_header_checksum,
    lemma_checksum_verifies, with_checksum, word_sum, MAX_SUMMED_LEN,
};
use crate::libs::error::VpnError;
use crate::libs::esp::{
    carries, fresh, lemma_wire_round_trip, opened, parsed, sealed, well_formed, wire_bytes,
    EspView, ESPPacket, PacketView, ESP,
};
use crate::libs::wire::{be16, push_all, push_be16, write_be16};

verus! {

/// The payload that marks a probe: `monitor`, two zero bytes, `pan ha `.
pub const MAGIC_PING_PAYLOAD: [u8; 16] = [
    0x6d, 0x6f, 0x6e, 0x69, 0x74, 0x6f, 0x72, 0x00, 0x00, 0x70, 0x61, 0x6e, 0x20, 0x68, 0x61, 0x20,
];

/// The bytes of an IPv4 header without options.
pub const IPV4_HEADER_LEN: usize = 20;

/// The bytes of an ICMP echo header.
pub const ICMP_HEADER_LEN: usize = 8;

/// Where the echoed payload starts in a probe frame.
pub const PAYLOAD_OFFSET: usize = 28;

/// The bytes of a probe frame.
pub const PROBE_FRAME_LEN: usize = 44;

/// Time to live of a probe.
pub const PROBE_TTL: u8 = 64;

/// The IPv4 protocol number of ICMP.
pub const PROTOCOL_ICMP: u8 = 1;

/// The ICMP type of an echo request.
pub const ICMP_ECHO_REQUEST: u8 = 8;

/// The address that a probe is sent from.
pub const PROBE_SOURCE: [u8; 4] = [10, 193, 129, 116];

/// The address that a probe is sent to.
pub const PROBE_DESTINATION: [u8; 4] = [10, 193, 33, 1];

/// The magic payload as a sequence.
pub open spec fn magic() -> Seq<u8> {
    seq![
        0x6du8, 0x6f, 0x6e, 0x69, 0x74, 0x6f, 0x72, 0x00, 0x00, 0x70, 0x61, 0x6e, 0x20, 0x68, 0x61,
        0x20,
    ]
}

/// An IPv4 header without options and with a zero checksum field: version 4,
/// five words long, no fragmentation, identification zero.
pub open spec fn ipv4_header_unsummed(
    total_len: u16,
    ttl: u8,
    protocol: u8,
    source: Seq<u8>,
    destination: Seq<u8>,
) -> Seq<u8> {
    seq![0x45u8, 0x00] + be16(total_len) + seq![0u8, 0, 0, 0, ttl, protocol, 0, 0] + source
        + destination
}

/// The same header with its checksum filled in.
pub open spec fn ipv4_header(
    total_len: u16,
    ttl: u8,
    protocol: u8,
    source: Seq<u8>,
    destination: Seq<u8>,
) -> Seq<u8> {
    let raw = ipv4_header_unsummed(total_len, ttl, protocol, source, destination);
    with_checksum(raw, 5, internet_checksum(raw, 5))
}

/// An ICMP echo request with identifier and sequence number zero and a zero
/// checksum field, carrying `payload`.
pub open spec fn echo_request_unsummed(payload: Seq<u8>) -> Seq<u8> {
    seq![ICMP_ECHO_REQUEST, 0, 0, 0, 0, 0, 0, 0] + payload
}

/// The same message with its checksum filled in.
pub open spec fn echo_request(payload: Seq<u8>) -> Seq<u8> {
    let raw = echo_request_unsummed(payload);
    with_checksum(raw, 1, internet_checksum(raw, 1))
}

/// The probe frame: the IPv4 header from the probe source to the probe
/// destination, then the echo request that carries the magic payload.
pub open spec fn probe_frame_bytes() -> Seq<u8> {
    ipv4_header(44, PROBE_TTL, PROTOCOL_ICMP, PROBE_SOURCE@, PROBE_DESTINATION@) + echo_request(
        magic(),
    )
}

/// Whether `frame` is an echo of the probe: 44 bytes, of which those behind
/// the IPv4 header and the ICMP header are the magic payload.
pub open spec fn is_probe_echo(frame: Seq<u8>) -> bool {
    frame.len() == PROBE_FRAME_LEN && frame.subrange(PAYLOAD_OFFSET as int, PROBE_FRAME_LEN as int)
        == magic()
}

/// The probe frame is itself an echo of the probe.
pub proof fn lemma_probe_frame_is_echo()
    ensures
        probe_frame_bytes().len() == PROBE_FRAME_LEN,
        is_probe_echo(probe_frame_bytes()),
{
    let frame = probe_frame_bytes();
    assert(frame.subrange(28, 44) =~= magic());
}

/// The probe frame byte by byte: the header's checksum is `c2da`, that of the
/// echo request `5250`.
pub proof fn lemma_probe_frame_value()
    ensures
        probe_frame_bytes() == seq![
            0x45u8, 0x00, 0x00, 0x2c, 0x00, 0x00, 0x00, 0x00, 0x40, 0x01, 0xc2, 0xda, 0x0a, 0xc1,
            0x81, 0x74, 0x0a, 0xc1, 0x21, 0x01, 0x08, 0x00, 0x52, 0x50, 0x00, 0x00, 0x00, 0x00,
            0x6d, 0x6f, 0x6e, 0x69, 0x74, 0x6f, 0x72, 0x00, 0x00, 0x70, 0x61, 0x6e, 0x20, 0x68,
            0x61, 0x20,
        ],
{
    reveal_with_fuel(word_sum, 13);
    reveal_with_fuel(fold_carries, 3);
}

/// A receiver finds both checksums of the probe frame intact: the words of
/// the IPv4 header fold to `0xffff`, and so do those of the echo request.
pub proof fn lemma_probe_frame_verifies()
    ensures
        folded_sum(probe_frame_bytes().subrange(0, IPV4_HEADER_LEN as int)) == 0xffff,
        folded_sum(probe_frame_bytes().subrange(IPV4_HEADER_LEN as int, PROBE_FRAME_LEN as int))
            == 0xffff,
{
    let header = ipv4_header(44, PROBE_TTL, PROTOCOL_ICMP, PROBE_SOURCE@, PROBE_DESTINATION@);
    let echo = echo_request(magic());
    lemma_checksum_verifies(
        ipv4_header_unsummed(44, PROBE_TTL, PROTOCOL_ICMP, PROBE_SOURCE@, PROBE_DESTINATION@),
        5,
    );
    lemma_checksum_verifies(echo_request_unsummed(magic()), 1);
    assert(probe_frame_bytes().subrange(0, 20) =~= header);
    assert(probe_frame_bytes().subrange(20, 44) =~= echo);
}

/// An IPv4 header without options for a packet of `total_len` bytes, with its
/// checksum.
pub fn build_ipv4_header(
    total_len: u16,
    ttl: u8,
    protocol: u8,
    source: &[u8; 4],
    destination: &[u8; 4],
) -> (header: Vec<u8>)
    ensures
        header@ == ipv4_header(total_len, ttl, protocol, source@, destination@),
        header@.len() == IPV4_HEADER_LEN,
{
    let mut header: Vec<u8> = Vec::new();
    header.push(0x45);
    header.push(0x00);
    push_be16(&mut header, total_len);
    header.push(0);
    header.push(0);
    header.push(0);
    header.push(0);
    header.push(ttl);
    header.push(protocol);
    header.push(0);
    header.push(0);
    push_all(&mut header, source);
    push_all(&mut header, destination);
    assert(header@ =~= ipv4_header_unsummed(total_len, ttl, protocol, source@, destination@));
    let sum: u16 = ipv4_header_checksum(&header);
    write_be16(&mut header, 10, sum);
    header
}

/// An ICMP echo request that carries `payload`, with its checksum. The
/// message must fit an IPv4 packet.
pub fn build_echo_request(payload: &[u8]) -> (message: Vec<u8>)
    requires
        payload@.len() + ICMP_HEADER_LEN <= MAX_SUMMED_LEN,
    ensures
        message@ == echo_request(payload@),
        message@.len() == ICMP_HEADER_LEN + payload@.len(),
{
    let mut message: Vec<u8> = Vec::new();
    message.push(ICMP_ECHO_REQUEST);
    message.push(0);
    message.push(0);
    message.push(0);
    message.push(0);
    message.push(0);
    message.push(0);
    message.push(0);
    push_all(&mut message, payload);
    assert(message@ =~= echo_request_unsummed(payload@));
    let sum: u16 = icmp_checksum(&message);
    write_be16(&mut message, 2, sum);
    message
}

/// The probe frame, ready to be sealed.
pub fn probe_frame() -> (frame: Vec<u8>)
    ensures
        frame@ == probe_frame_bytes(),
        frame@.len() == PROBE_FRAME_LEN,
{
    let mut frame = build_ipv4_header(
        44,
        PROBE_TTL,
        PROTOCOL_ICMP,
        &PROBE_SOURCE,
        &PROBE_DESTINATION,
    );
    let message = build_echo_request(&MAGIC_PING_PAYLOAD);
    push_all(&mut frame, &message);
    frame
}

/// The probe for the association `esp`: the probe frame in a packet of the
/// association, sealed under it.
pub fn send_probes(esp: &ESP) -> (result: Result<ESPPacket, VpnError>)
    ensures
        result matches Ok(packet) && packet@ == sealed(fresh(esp@, probe_frame_bytes()), esp@)
            && carries(packet@, esp@, probe_frame_bytes()),
{
    let mut packet = ESPPacket::new(esp, probe_frame());
    match packet.encrypt(esp) {
        Ok(()) => Ok(packet),
        Err(e) => Err(e),
    }
}

/// Whether the opened packet `pkt` holds an echo of the probe.
pub fn catch_probes(pkt: &ESPPacket) -> (result: Result<bool, VpnError>)
    ensures
        result == Ok::<bool, VpnError>(is_probe_echo(pkt.data@)),
{
    if pkt.data.len() != PROBE_FRAME_LEN {
        return Ok(false);
    }
    let mut i: usize = 0;
    while i < 16
        invariant
            i <= 16,
            pkt.data@.len() == PROBE_FRAME_LEN,
            forall|j: int| 0 <= j < i ==> pkt.data@[PAYLOAD_OFFSET + j] == magic()[j],
        decreases 16 - i,
    {
        if pkt.data[PAYLOAD_OFFSET + i] != MAGIC_PING_PAYLOAD[i] {
            return Ok(false);
        }
        i += 1;
    }
    assert(pkt.data@.subrange(28, 44) =~= magic());
    Ok(true)
}

/// Whether the datagram `bytes` answers a probe for the association `esp`: it
/// holds a packet that opens under `esp` to an echo of the probe.
pub open spec fn answers_probe(bytes: Seq<u8>, esp: EspView) -> bool {
    parsed(bytes) matches Some(p) && opened(p, esp) matches Ok(frame) && is_probe_echo(frame)
}

/// Judges the gateway's answer to a probe: the datagram is taken apart,
/// opened under the inbound association `esp` and searched for the magic
/// payload. Whatever goes wrong on the way, a buffer too short, a tag that
/// does not match, a trailer or a payload that is not the expected one, is a
/// failed probe. The probe that an association with the keys and the IV of
/// `esp` sends is itself accepted.
pub fn check_probe_reply(datagram: &[u8], esp: &ESP) -> (result: Result<(), VpnError>)
    ensures
        answers_probe(datagram@, esp@) ==> result is Ok,
        !answers_probe(datagram@, esp@) ==> result == Err::<(), VpnError>(VpnError::ProbeFailed),
        forall|p: PacketView|
            well_formed(p) && datagram@ == wire_bytes(p) && #[trigger] carries(
                p,
                esp@,
                probe_frame_bytes(),
            ) ==> result is Ok,
{
    proof {
        lemma_probe_frame_is_echo();
        assert forall|p: PacketView| well_formed(p) && datagram@ == wire_bytes(p) implies parsed(
            datagram@,
        ) == Some(p) by {
            lemma_wire_round_trip(p);
        }
    }
    let mut packet = match ESPPacket::from_bytes(datagram) {
        Ok(packet) => packet,
        Err(_) => {
            return Err(VpnError::ProbeFailed);
        },
    };
    if packet.decrypt(esp).is_err() {
        return Err(VpnError::ProbeFailed);
    }
    match catch_probes(&packet) {
        Ok(true) => Ok(()),
        _ => Err(VpnError::ProbeFailed),
    }
}

} // verus!
