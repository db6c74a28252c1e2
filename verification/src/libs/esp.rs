//! ESP security associations and the packet codec: sealing a payload into an
//! authenticated, enciphered packet, opening such a packet, and the packet's
//! wire format.

use vstd::prelude::*;
use crate::libs::cbc;
use crate::libs::cbc::{cbc_decrypt_of, cbc_encrypt_of};
use crate::libs::error::VpnError;
use crate::libs::hmacsha1;
use crate::libs::hmacsha1::{hmac_sha1_96, TAG_LEN};
use crate::libs::padding::{append_trailer, esp_pad, esp_unpad, lemma_unpad_pad, strip_trailer};
use crate::libs::wire::{
    be32, be32_value, copy_range, lemma_be32_value_round_trip, push_all, push_be32, read_be32,
};

verus! {

/// The bytes of a packet before its ciphertext: SPI, sequence number and IV.
pub const HEADER_LEN: usize = 24;

/// The shortest buffer that holds a packet: header and tag, no ciphertext.
pub const MIN_PACKET_LEN: usize = 36;

/// The most bytes by which sealing lengthens a payload: a trailer of up to 17
/// bytes and the cipher's own padding of up to 16.
pub const MAX_SEALING_GROWTH: usize = 33;

/// One direction's security association: the keys and numbers under which
/// packets are sealed or opened.
#[derive(Debug)]
pub struct ESP {
    /// The sequence number given to packets; the caller advances it.
    pub seq: u32,
    /// The security parameter index that names this association to the peer.
    pub spi: u32,
    /// The AES-128 key.
    pub enc_key: [u8; 16],
    /// The HMAC-SHA1 key.
    pub mac_key: [u8; 20],
    /// The initialisation vector, drawn once when the association is made.
    pub iv: [u8; 16],
}

/// What an association holds, as mathematical values.
pub struct EspView {
    pub seq: u32,
    pub spi: u32,
    pub enc_key: Seq<u8>,
    pub mac_key: Seq<u8>,
    pub iv: Seq<u8>,
}

impl View for ESP {
    type V = EspView;

    open spec fn view(&self) -> EspView {
        EspView {
            seq: self.seq,
            spi: self.spi,
            enc_key: self.enc_key@,
            mac_key: self.mac_key@,
            iv: self.iv@,
        }
    }
}

/// A packet as it travels: header fields, payload and tag. The payload is
/// plaintext before sealing and after opening, ciphertext in between.
#[derive(Debug)]
pub struct ESPPacket {
    /// The security parameter index.
    pub spi: u32,
    /// The sequence number.
    pub seq: u32,
    /// The initialisation vector.
    pub iv: [u8; 16],
    /// The payload.
    pub data: Vec<u8>,
    /// The authentication tag of the ciphertext.
    pub hmac: [u8; 12],
}

/// What a packet holds, as mathematical values.
pub struct PacketView {
    pub spi: u32,
    pub seq: u32,
    pub iv: Seq<u8>,
    pub data: Seq<u8>,
    pub hmac: Seq<u8>,
}

impl View for ESPPacket {
    type V = PacketView;

    open spec fn view(&self) -> PacketView {
        PacketView {
            spi: self.spi,
            seq: self.seq,
            iv: self.iv@,
            data: self.data@,
            hmac: self.hmac@,
        }
    }
}

/// A packet's view has an IV of 16 bytes and a tag of 12.
pub open spec fn well_formed(p: PacketView) -> bool {
    p.iv.len() == 16 && p.hmac.len() == 12
}

/// The packet that carries `data` for `esp` and is not sealed yet: the
/// association's numbers and IV, and a tag of zeros.
pub open spec fn fresh(esp: EspView, data: Seq<u8>) -> PacketView {
    PacketView { spi: esp.spi, seq: esp.seq, iv: esp.iv, data, hmac: Seq::new(12, |i: int| 0u8) }
}

/// The authentication tag of `data` under the association's MAC key.
pub open spec fn tag_of(esp: EspView, data: Seq<u8>) -> Seq<u8> {
    hmac_sha1_96(esp.mac_key, data)
}

/// `p` after sealing under `esp`: the payload gets its trailer and is
/// enciphered with the association's key and IV; the tag is that of the
/// ciphertext alone. The header fields stay.
pub open spec fn sealed(p: PacketView, esp: EspView) -> PacketView {
    let ciphertext = cbc_encrypt_of(esp.enc_key, esp.iv, esp_pad(p.data));
    PacketView { data: ciphertext, hmac: tag_of(esp, ciphertext), ..p }
}

/// Whether the tag of `p` is the one that `esp` gives its payload.
pub open spec fn authentic(p: PacketView, esp: EspView) -> bool {
    p.hmac == tag_of(esp, p.data)
}

/// What opening `p` under `esp` gives. The tag is checked first, and nothing
/// is deciphered unless it matches. The payload is deciphered with the
/// association's key and the association's IV, and its trailer is taken off.
/// The IV that the packet carries is not looked at.
pub open spec fn opened(p: PacketView, esp: EspView) -> Result<Seq<u8>, VpnError> {
    if !authentic(p, esp) {
        Err(VpnError::AuthenticationFailed)
    } else {
        match esp_unpad(cbc_decrypt_of(esp.enc_key, esp.iv, p.data)) {
            Some(payload) => Ok(payload),
            None => Err(VpnError::MalformedPacket),
        }
    }
}

/// Whether `p` holds `payload` sealed under the keys and the IV of `esp`. The
/// header fields of `p` play no part in it.
pub open spec fn carries(p: PacketView, esp: EspView, payload: Seq<u8>) -> bool {
    p.data == cbc_encrypt_of(esp.enc_key, esp.iv, esp_pad(payload)) && authentic(p, esp)
}

/// The packet on the wire: SPI and sequence number in network order, the IV,
/// the ciphertext, the tag. The ciphertext has no length of its own.
pub open spec fn wire_bytes(p: PacketView) -> Seq<u8> {
    be32(p.spi) + be32(p.seq) + p.iv + p.data + p.hmac
}

/// The packet that a wire buffer holds; `None` where the buffer is too short
/// for header and tag. The ciphertext is what lies between the IV and the
/// last 12 bytes.
pub open spec fn parsed(bytes: Seq<u8>) -> Option<PacketView> {
    if bytes.len() < MIN_PACKET_LEN {
        None
    } else {
        Some(
            PacketView {
                spi: be32_value(bytes.subrange(0, 4)),
                seq: be32_value(bytes.subrange(4, 8)),
                iv: bytes.subrange(8, 24),
                data: bytes.subrange(24, bytes.len() - 12),
                hmac: bytes.subrange(bytes.len() - 12, bytes.len() as int),
            },
        )
    }
}

/// Sealing and opening go by the keys and the IV alone: two associations
/// that share them, whatever their SPI and sequence number, open the same
/// packets to the same payloads, and what one has sealed the other opens.
pub proof fn lemma_same_keys_same_result(p: PacketView, a: EspView, b: EspView, payload: Seq<u8>)
    requires
        a.enc_key == b.enc_key,
        a.mac_key == b.mac_key,
        a.iv == b.iv,
    ensures
        opened(p, a) == opened(p, b),
        carries(p, a, payload) == carries(p, b, payload),
        sealed(p, a) == sealed(p, b),
{
}

/// `s` with one bit turned over: bit `bit % 8` of byte `bit / 8`.
pub open spec fn flip_bit(s: Seq<u8>, bit: nat) -> Seq<u8>
    recommends
        bit < 8 * s.len(),
{
    s.update((bit / 8) as int, s[(bit / 8) as int] ^ (1u8 << ((bit % 8) as u8)))
}

/// Turning one bit over changes the bytes.
pub proof fn lemma_flip_bit_differs(s: Seq<u8>, bit: nat)
    requires
        bit < 8 * s.len(),
    ensures
        flip_bit(s, bit).len() == s.len(),
        flip_bit(s, bit) != s,
{
    let at = (bit / 8) as int;
    let x: u8 = s[at];
    let k: u8 = (bit % 8) as u8;
    assert(x ^ (1u8 << k) != x) by (bit_vector)
        requires
            k < 8,
    ;
}

/// A packet is opened only if its tag is the tag of its ciphertext; any other
/// packet is refused as not authentic, whatever else it holds.
pub proof fn lemma_open_checks_tag(p: PacketView, esp: EspView)
    ensures
        opened(p, esp) is Ok ==> authentic(p, esp),
        !authentic(p, esp) <==> opened(p, esp) == Err::<Seq<u8>, VpnError>(
            VpnError::AuthenticationFailed,
        ),
{
}

/// Turning over any one bit of the tag of an authentic packet makes opening
/// fail with `AuthenticationFailed`.
pub proof fn lemma_tampered_tag_refused(p: PacketView, esp: EspView, bit: nat)
    requires
        well_formed(p),
        authentic(p, esp),
        bit < 96,
    ensures
        opened((PacketView { hmac: flip_bit(p.hmac, bit), ..p }), esp) == Err::<Seq<u8>, VpnError>(
            VpnError::AuthenticationFailed,
        ),
{
    lemma_flip_bit_differs(p.hmac, bit);
}

/// Turning over any one bit of the ciphertext of an authentic packet changes
/// the ciphertext, and opening then fails with `AuthenticationFailed` unless
/// the changed ciphertext has the very tag of the unchanged one.
pub proof fn lemma_tampered_ciphertext_refused(p: PacketView, esp: EspView, bit: nat)
    requires
        authentic(p, esp),
        bit < 8 * p.data.len(),
    ensures
        flip_bit(p.data, bit) != p.data,
        tag_of(esp, flip_bit(p.data, bit)) != tag_of(esp, p.data) ==> opened(
            (PacketView { data: flip_bit(p.data, bit), ..p }),
            esp,
        ) == Err::<Seq<u8>, VpnError>(VpnError::AuthenticationFailed),
{
    lemma_flip_bit_differs(p.data, bit);
}

/// Taking a packet's wire bytes apart gives the packet back: SPI, sequence
/// number, IV, ciphertext and tag, each as it was.
pub proof fn lemma_wire_round_trip(p: PacketView)
    requires
        well_formed(p),
    ensures
        wire_bytes(p).len() == 36 + p.data.len(),
        parsed(wire_bytes(p)) == Some(p),
{
    let bytes = wire_bytes(p);
    assert(bytes.subrange(8, 24) =~= p.iv);
    assert(bytes.subrange(24, bytes.len() - 12) =~= p.data);
    assert(bytes.subrange(bytes.len() - 12, bytes.len() as int) =~= p.hmac);
}

/// Putting a parsed packet back on the wire gives the buffer it came from.
pub proof fn lemma_parse_round_trip(bytes: Seq<u8>)
    requires
        bytes.len() >= MIN_PACKET_LEN,
    ensures
        parsed(bytes) matches Some(p) && well_formed(p) && wire_bytes(p) == bytes,
{
    lemma_be32_value_round_trip(bytes.subrange(0, 4));
    lemma_be32_value_round_trip(bytes.subrange(4, 8));
}

/// Draws an initialisation vector.
///
/// Calls `rand::thread_rng` and `rand::RngCore::fill_bytes`. Nothing is
/// claimed of the bytes.
#[verifier::external_body]
fn random_iv() -> [u8; 16] {
    let mut iv = [0u8; 16];
    rand::RngCore::fill_bytes(&mut rand::thread_rng(), &mut iv);
    iv
}

/// The `N` bytes of `bytes` from `at` on.
fn take<const N: usize>(bytes: &[u8], at: usize) -> (out: [u8; N])
    requires
        at + N <= bytes@.len(),
    ensures
        out@ == bytes@.subrange(at as int, at + N),
{
    let len: usize = bytes.len();
    let mut out = [0u8; N];
    let mut i: usize = 0;
    while i < N
        invariant
            i <= N,
            at + N <= len == bytes@.len(),
            forall|j: int| 0 <= j < i ==> out@[j] == bytes@[at + j],
        decreases N - i,
    {
        out[i] = bytes[at + i];
        i += 1;
    }
    out
}

/// Whether two tags are the same, byte for byte.
pub fn same_tag(a: &[u8; 12], b: &[u8; 12]) -> (same: bool)
    ensures
        same == (a@ == b@),
{
    let mut i: usize = 0;
    while i < 12
        invariant
            i <= 12,
            forall|j: int| 0 <= j < i ==> a@[j] == b@[j],
        decreases 12 - i,
    {
        if a[i] != b[i] {
            return false;
        }
        i += 1;
    }
    assert(a@ =~= b@);
    true
}

impl ESP {
    /// An association with the given numbers and keys and a fresh random IV.
    pub fn new(seq: u32, spi: u32, enc_key: [u8; 16], mac_key: [u8; 20]) -> (esp: ESP)
        ensures
            esp.seq == seq,
            esp.spi == spi,
            esp.enc_key == enc_key,
            esp.mac_key == mac_key,
    {
        ESP::with_iv(seq, spi, enc_key, mac_key, random_iv())
    }

    /// An association with the given numbers, keys and IV.
    pub fn with_iv(
        seq: u32,
        spi: u32,
        enc_key: [u8; 16],
        mac_key: [u8; 20],
        iv: [u8; 16],
    ) -> (esp: ESP)
        ensures
            esp == (ESP { seq, spi, enc_key, mac_key, iv }),
    {
        ESP { seq, spi, enc_key, mac_key, iv }
    }
}

impl ESPPacket {
    /// The packet that carries `data` for `esp`, not sealed yet.
    pub fn new(esp: &ESP, data: Vec<u8>) -> (packet: ESPPacket)
        ensures
            packet@ == fresh(esp@, data@),
    {
        let packet = ESPPacket { spi: esp.spi, seq: esp.seq, iv: esp.iv, data, hmac: [0u8; 12] };
        assert(packet.hmac@ =~= Seq::new(12, |i: int| 0u8));
        packet
    }

    /// Takes a packet out of a wire buffer. A buffer of fewer than 36 bytes is
    /// malformed; any other is taken apart at fixed offsets.
    pub fn from_bytes(bytesdata: &[u8]) -> (result: Result<ESPPacket, VpnError>)
        ensures
            match parsed(bytesdata@) {
                Some(p) => result matches Ok(packet) && packet@ == p,
                None => result == Err::<ESPPacket, VpnError>(VpnError::MalformedPacket),
            },
    {
        let len: usize = bytesdata.len();
        if len < MIN_PACKET_LEN {
            return Err(VpnError::MalformedPacket);
        }
        let spi: u32 = read_be32(bytesdata, 0);
        let seq: u32 = read_be32(bytesdata, 4);
        let iv: [u8; 16] = take(bytesdata, 8);
        let hmac: [u8; 12] = take(bytesdata, len - TAG_LEN);
        let data = copy_range(bytesdata, HEADER_LEN, len - TAG_LEN);
        Ok(ESPPacket { spi, seq, iv, data, hmac })
    }

    /// The packet as it goes on the wire.
    pub fn to_bytes(&self) -> (bytes: Vec<u8>)
        ensures
            bytes@ == wire_bytes(self@),
    {
        let mut packet: Vec<u8> = Vec::new();
        push_be32(&mut packet, self.spi);
        push_be32(&mut packet, self.seq);
        push_all(&mut packet, &self.iv);
        push_all(&mut packet, &self.data);
        push_all(&mut packet, &self.hmac);
        packet
    }

    /// Seals the packet under `esp`: the payload gets its trailer, is
    /// enciphered, and the tag of the ciphertext is stored. Always succeeds.
    /// The payload must leave room for what sealing adds to it.
    pub fn encrypt(&mut self, esp: &ESP) -> (result: Result<(), VpnError>)
        requires
            old(self).data@.len() + MAX_SEALING_GROWTH <= isize::MAX,
        ensures
            result is Ok,
            final(self)@ == sealed(old(self)@, esp@),
            final(self).data@.len() == esp_pad(old(self).data@).len() + 16,
            final(self).data@.len() % 16 == 0,
            carries(final(self)@, esp@, old(self).data@),
    {
        proof {
        }
        append_trailer(&mut self.data);
        let ciphertext = cbc::encrypt(&esp.enc_key, &self.data, &esp.iv);
        self.hmac = hmacsha1::hmac_sha1(&esp.mac_key, &ciphertext);
        self.data = ciphertext;
        Ok(())
    }

    /// Opens the packet under `esp`. The tag is checked before anything is
    /// deciphered: a packet whose tag does not match is refused and left as
    /// it is. Otherwise the payload is deciphered with the key and the IV of
    /// `esp` and stripped of its trailer, put in place of the ciphertext, and
    /// returned; what is deciphered but has no trailer is malformed, and the
    /// packet is left as it is. A packet that `esp`, or an association with
    /// the same keys and IV, sealed around some payload gives that payload
    /// back.
    pub fn decrypt(&mut self, esp: &ESP) -> (result: Result<Vec<u8>, VpnError>)
        ensures
            match opened(old(self)@, esp@) {
                Ok(payload) => result matches Ok(v) && v@ == payload && final(self)@ == (
                PacketView { data: payload, ..old(self)@ }),
                Err(e) => result == Err::<Vec<u8>, VpnError>(e) && final(self)@ == old(self)@,
            },
            forall|payload: Seq<u8>| #[trigger]
                carries(old(self)@, esp@, payload) ==> (result matches Ok(v) && v@ == payload
                    && final(self).data@ == payload),
    {
        let expected = hmacsha1::hmac_sha1(&esp.mac_key, &self.data);
        if !same_tag(&expected, &self.hmac) {
            return Err(VpnError::AuthenticationFailed);
        }
        let padded = cbc::decrypt(&esp.enc_key, &self.data, &esp.iv);
        assert forall|payload: Seq<u8>| #[trigger]
            carries(old(self)@, esp@, payload) implies opened(old(self)@, esp@) == Ok::<
            Seq<u8>,
            VpnError,
        >(payload) by {
            lemma_unpad_pad(payload);
        }
        match strip_trailer(&padded) {
            Some(payload) => {
                self.data = copy_range(&payload, 0, payload.len());
                assert(self.data@ =~= payload@);
                Ok(payload)
            },
            None => Err(VpnError::MalformedPacket),
        }
    }
}

} // verus!
