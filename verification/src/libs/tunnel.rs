//! The frames that carry datagrams over the relay's control connection: an
//! address key, a length, the payload.

use vstd::prelude::*;
use crate::libs::error::VpnError;
use crate::libs::wire::{be16, be16_value, copy_range, push_all, push_be16, read_be16};

verus! {

/// The first byte on a relay connection that is to carry datagrams.
pub const CMD_UDP: u8 = 1;

/// The bytes of an address key.
pub const KEY_LEN: usize = 12;

/// The bytes before a frame's payload: address key and length.
pub const FRAME_HEADER_LEN: usize = 14;

/// The longest payload whose length fits the frame's length field.
pub const MAX_FRAME_PAYLOAD: usize = 65535;

/// Where a datagram comes from and where it goes: two IPv4 socket addresses.
#[derive(Debug, Clone, Copy, PartialEq, Eq)]
pub struct AddressKey {
    /// The source address.
    pub src_ip: [u8; 4],
    /// The source port.
    pub src_port: u16,
    /// The destination address.
    pub dst_ip: [u8; 4],
    /// The destination port.
    pub dst_port: u16,
}

/// One datagram on its way through the relay, in either direction.
#[derive(Debug, PartialEq, Eq)]
pub struct TunnelFrame {
    /// The socket pair that the datagram belongs to.
    pub key: AddressKey,
    /// The datagram's bytes.
    pub payload: Vec<u8>,
}

/// What a frame holds, as mathematical values.
pub struct FrameView {
    pub key: AddressKey,
    pub payload: Seq<u8>,
}

impl View for TunnelFrame {
    type V = FrameView;

    open spec fn view(&self) -> FrameView {
        FrameView { key: self.key, payload: self.payload@ }
    }
}

/// The 12 bytes of an address key: source address, source port, destination
/// address, destination port, the ports in network order.
pub open spec fn key_bytes(key: AddressKey) -> Seq<u8> {
    key.src_ip@ + be16(key.src_port) + key.dst_ip@ + be16(key.dst_port)
}

/// The address key that the first 12 bytes of `bytes` hold.
pub open spec fn key_of(bytes: Seq<u8>) -> AddressKey
    recommends
        bytes.len() >= KEY_LEN,
{
    AddressKey {
        src_ip: [bytes[0], bytes[1], bytes[2], bytes[3]],
        src_port: be16_value(bytes[4], bytes[5]),
        dst_ip: [bytes[6], bytes[7], bytes[8], bytes[9]],
        dst_port: be16_value(bytes[10], bytes[11]),
    }
}

/// The payload length that a frame header announces, in its last two bytes.
pub open spec fn announced_len(header: Seq<u8>) -> nat
    recommends
        header.len() >= FRAME_HEADER_LEN,
{
    be16_value(header[12], header[13]) as nat
}

/// The frame on the wire: address key, payload length in network order,
/// payload.
pub open spec fn frame_bytes(frame: FrameView) -> Seq<u8>
    recommends
        frame.payload.len() <= MAX_FRAME_PAYLOAD,
{
    key_bytes(frame.key) + be16(frame.payload.len() as u16) + frame.payload
}

/// The frame that `bytes` hold; `None` unless they are a header followed by
/// exactly as many bytes as it announces.
pub open spec fn frame_of(bytes: Seq<u8>) -> Option<FrameView> {
    if bytes.len() >= FRAME_HEADER_LEN && bytes.len() == FRAME_HEADER_LEN + announced_len(bytes) {
        Some(
            FrameView {
                key: key_of(bytes),
                payload: bytes.subrange(FRAME_HEADER_LEN as int, bytes.len() as int),
            },
        )
    } else {
        None
    }
}

/// Reading an address key back from its bytes gives the same key.
pub proof fn lemma_key_round_trip(key: AddressKey)
    ensures
        key_bytes(key).len() == KEY_LEN,
        key_of(key_bytes(key)) == key,
{
    let k = key_of(key_bytes(key));
    assert(k.src_ip =~= key.src_ip);
    assert(k.dst_ip =~= key.dst_ip);
}

/// Reading a frame back from its bytes gives the same key and the same
/// payload, whatever they are, as long as the payload's length fits the
/// length field.
pub proof fn lemma_frame_round_trip(frame: FrameView)
    requires
        frame.payload.len() <= MAX_FRAME_PAYLOAD,
    ensures
        frame_bytes(frame).len() == FRAME_HEADER_LEN + frame.payload.len(),
        frame_of(frame_bytes(frame)) == Some(frame),
{
    lemma_key_round_trip(frame.key);
    let bytes = frame_bytes(frame);
    assert(bytes.subrange(FRAME_HEADER_LEN as int, bytes.len() as int) =~= frame.payload);
}

/// Writing a frame that was read gives the bytes it was read from.
pub proof fn lemma_frame_bytes_of(bytes: Seq<u8>)
    requires
        frame_of(bytes) is Some,
    ensures
        frame_bytes(frame_of(bytes)->0) == bytes,
{
}

impl AddressKey {
    /// The key's 12 bytes.
    pub fn to_bytes(&self) -> (bytes: Vec<u8>)
        ensures
            bytes@ == key_bytes(*self),
            bytes@.len() == KEY_LEN,
    {
        let mut bytes: Vec<u8> = Vec::new();
        push_all(&mut bytes, &self.src_ip);
        push_be16(&mut bytes, self.src_port);
        push_all(&mut bytes, &self.dst_ip);
        push_be16(&mut bytes, self.dst_port);
        bytes
    }

    /// The key that the first 12 bytes of `bytes` hold; a shorter buffer is
    /// malformed.
    pub fn from_bytes(bytes: &[u8]) -> (result: Result<AddressKey, VpnError>)
        ensures
            bytes@.len() >= KEY_LEN ==> result == Ok::<AddressKey, VpnError>(key_of(bytes@)),
            bytes@.len() < KEY_LEN ==> result == Err::<AddressKey, VpnError>(
                VpnError::MalformedPacket,
            ),
    {
        if bytes.len() < KEY_LEN {
            return Err(VpnError::MalformedPacket);
        }
        let key = AddressKey {
            src_ip: [bytes[0], bytes[1], bytes[2], bytes[3]],
            src_port: read_be16(bytes, 4),
            dst_ip: [bytes[6], bytes[7], bytes[8], bytes[9]],
            dst_port: read_be16(bytes, 10),
        };
        Ok(key)
    }
}

/// Takes a frame header apart: the address key and the number of payload
/// bytes that follow. A buffer of another length than 14 is malformed.
pub fn parse_frame_header(header: &[u8]) -> (result: Result<(AddressKey, u16), VpnError>)
    ensures
        header@.len() == FRAME_HEADER_LEN ==> result == Ok::<(AddressKey, u16), VpnError>(
            (key_of(header@), announced_len(header@) as u16),
        ),
        header@.len() != FRAME_HEADER_LEN ==> result == Err::<(AddressKey, u16), VpnError>(
            VpnError::MalformedPacket,
        ),
{
    if header.len() != FRAME_HEADER_LEN {
        return Err(VpnError::MalformedPacket);
    }
    match AddressKey::from_bytes(header) {
        Ok(key) => Ok((key, read_be16(header, 12))),
        Err(e) => Err(e),
    }
}

impl TunnelFrame {
    /// The frame on the wire. A payload too long for the length field cannot
    /// be framed and is malformed.
    pub fn to_bytes(&self) -> (result: Result<Vec<u8>, VpnError>)
        ensures
            self.payload@.len() <= MAX_FRAME_PAYLOAD ==> (result matches Ok(bytes) && bytes@
                == frame_bytes(self@)),
            self.payload@.len() > MAX_FRAME_PAYLOAD ==> result == Err::<Vec<u8>, VpnError>(
                VpnError::MalformedPacket,
            ),
    {
        let len: usize = self.payload.len();
        if len > MAX_FRAME_PAYLOAD {
            return Err(VpnError::MalformedPacket);
        }
        let mut bytes = self.key.to_bytes();
        push_be16(&mut bytes, len as u16);
        push_all(&mut bytes, &self.payload);
        Ok(bytes)
    }

    /// The frame that `bytes` hold. They must be one whole frame: a header
    /// and exactly as many bytes as it announces; anything else is malformed.
    pub fn from_bytes(bytes: &[u8]) -> (result: Result<TunnelFrame, VpnError>)
        ensures
            match frame_of(bytes@) {
                Some(frame) => result matches Ok(f) && f@ == frame,
                None => result == Err::<TunnelFrame, VpnError>(VpnError::MalformedPacket),
            },
    {
        let len: usize = bytes.len();
        if len < FRAME_HEADER_LEN {
            return Err(VpnError::MalformedPacket);
        }
        let key = match AddressKey::from_bytes(bytes) {
            Ok(key) => key,
            Err(e) => {
                return Err(e);
            },
        };
        let announced: u16 = read_be16(bytes, 12);
        if len - FRAME_HEADER_LEN != announced as usize {
            return Err(VpnError::MalformedPacket);
        }
        Ok(TunnelFrame { key, payload: copy_range(bytes, FRAME_HEADER_LEN, len) })
    }
}

/// The step that the uplink, from the local stack to the relay, is about to
/// take.
#[derive(Debug, Clone, Copy, PartialEq, Eq, Structural)]
pub enum UplinkStep {
    /// Take the next intercepted datagram from the local stack.
    Pull,
    /// Write the datagram's frame to the relay.
    Write,
    /// Flush the connection.
    Flush,
    /// Leave the loop.
    Stop,
}

/// The step that the downlink, from the relay to the local stack, is about to
/// take.
#[derive(Debug, Clone, Copy, PartialEq, Eq, Structural)]
pub enum DownlinkStep {
    /// Read the 12 bytes of an address key.
    ReadKey,
    /// Read the 2 bytes of the payload length.
    ReadLength,
    /// Read as many payload bytes as the length says.
    ReadPayload,
    /// Hand the datagram to the local stack.
    Deliver,
    /// Leave the loop.
    Stop,
}

/// What follows `step` of the uplink: the next step, and the liveness flag
/// that the two loops share. A step that failed ends the loop. The flag is
/// looked at before each datagram is pulled. A loop that ends clears the flag.
pub open spec fn uplink_next(step: UplinkStep, succeeded: bool, running: bool) -> (
    UplinkStep,
    bool,
) {
    if !succeeded {
        (UplinkStep::Stop, false)
    } else {
        match step {
            UplinkStep::Pull => (UplinkStep::Write, running),
            UplinkStep::Write => (UplinkStep::Flush, running),
            UplinkStep::Flush => if running {
                (UplinkStep::Pull, true)
            } else {
                (UplinkStep::Stop, false)
            },
            UplinkStep::Stop => (UplinkStep::Stop, false),
        }
    }
}

/// What follows `step` of the downlink: the next step, and the liveness flag
/// that the two loops share. A step that failed, a short read among them,
/// ends the loop. The flag is looked at before each frame is read. A loop
/// that ends clears the flag.
pub open spec fn downlink_next(step: DownlinkStep, succeeded: bool, running: bool) -> (
    DownlinkStep,
    bool,
) {
    if !succeeded {
        (DownlinkStep::Stop, false)
    } else {
        match step {
            DownlinkStep::ReadKey => (DownlinkStep::ReadLength, running),
            DownlinkStep::ReadLength => (DownlinkStep::ReadPayload, running),
            DownlinkStep::ReadPayload => (DownlinkStep::Deliver, running),
            DownlinkStep::Deliver => if running {
                (DownlinkStep::ReadKey, true)
            } else {
                (DownlinkStep::Stop, false)
            },
            DownlinkStep::Stop => (DownlinkStep::Stop, false),
        }
    }
}

/// The uplink's first step: pull a datagram while the flag is set.
pub fn uplink_start(running: bool) -> (first: (UplinkStep, bool))
    ensures
        first == uplink_next(UplinkStep::Flush, true, running),
{
    uplink_advance(UplinkStep::Flush, true, running)
}

/// The step to take after `step` of the uplink ended as `succeeded` says, and
/// the value to leave in the liveness flag, which was `running`.
pub fn uplink_advance(step: UplinkStep, succeeded: bool, running: bool) -> (next: (
    UplinkStep,
    bool,
))
    ensures
        next == uplink_next(step, succeeded, running),
{
    if !succeeded {
        return (UplinkStep::Stop, false);
    }
    match step {
        UplinkStep::Pull => (UplinkStep::Write, running),
        UplinkStep::Write => (UplinkStep::Flush, running),
        UplinkStep::Flush => if running {
            (UplinkStep::Pull, true)
        } else {
            (UplinkStep::Stop, false)
        },
        UplinkStep::Stop => (UplinkStep::Stop, false),
    }
}

/// The downlink's first step: read a key while the flag is set.
pub fn downlink_start(running: bool) -> (first: (DownlinkStep, bool))
    ensures
        first == downlink_next(DownlinkStep::Deliver, true, running),
{
    downlink_advance(DownlinkStep::Deliver, true, running)
}

/// The step to take after `step` of the downlink ended as `succeeded` says,
/// and the value to leave in the liveness flag, which was `running`.
pub fn downlink_advance(step: DownlinkStep, succeeded: bool, running: bool) -> (next: (
    DownlinkStep,
    bool,
))
    ensures
        next == downlink_next(step, succeeded, running),
{
    if !succeeded {
        return (DownlinkStep::Stop, false);
    }
    match step {
        DownlinkStep::ReadKey => (DownlinkStep::ReadLength, running),
        DownlinkStep::ReadLength => (DownlinkStep::ReadPayload, running),
        DownlinkStep::ReadPayload => (DownlinkStep::Deliver, running),
        DownlinkStep::Deliver => if running {
            (DownlinkStep::ReadKey, true)
        } else {
            (DownlinkStep::Stop, false)
        },
        DownlinkStep::Stop => (DownlinkStep::Stop, false),
    }
}

/// The two loops end together: a loop that stops leaves the flag cleared, no
/// loop sets a flag that was cleared, and with the flag cleared a loop stops
/// where it next looks at it, at the latest.
pub proof fn lemma_links_stop_together(
    up: UplinkStep,
    down: DownlinkStep,
    succeeded: bool,
    running: bool,
)
    ensures
        uplink_next(up, succeeded, running).0 == UplinkStep::Stop ==> !uplink_next(
            up,
            succeeded,
            running,
        ).1,
        downlink_next(down, succeeded, running).0 == DownlinkStep::Stop ==> !downlink_next(
            down,
            succeeded,
            running,
        ).1,
        uplink_next(up, succeeded, running).1 ==> running,
        downlink_next(down, succeeded, running).1 ==> running,
        uplink_next(UplinkStep::Flush, succeeded, false).0 == UplinkStep::Stop,
        downlink_next(DownlinkStep::Deliver, succeeded, false).0 == DownlinkStep::Stop,
{
}

} // verus!
