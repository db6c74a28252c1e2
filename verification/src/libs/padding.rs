//! The trailer that tunnel mode puts behind a payload before it is
//! enciphered: filler bytes, a pad-length byte and a next-header byte.

use vstd::prelude::*;
use crate::libs::wire::copy_range;

verus! {

/// The cipher's block size in bytes.
pub const BLOCK_SIZE: usize = 16;

/// The next-header value of an IPv4 packet carried in a tunnel (IP-in-IP).
pub const NEXT_HEADER_IPV4: u8 = 0x04;

/// The distance from a payload of `len` bytes to the last byte of its block.
pub open spec fn block_gap(len: nat) -> nat {
    (15 - len % 16) as nat
}

/// How many filler bytes follow a payload of `len` bytes. Together with the
/// two bytes behind them they fill the last block; where only one byte of the
/// block is free, a whole further block is taken.
pub open spec fn filler_len(len: nat) -> nat {
    if block_gap(len) == 0 {
        15
    } else {
        (block_gap(len) - 1) as nat
    }
}

/// The filler bytes: 1, 2, 3, up to `n`.
pub open spec fn filler(n: nat) -> Seq<u8> {
    Seq::new(n, |i: int| (i + 1) as u8)
}

/// The trailer of a payload of `len` bytes: the filler, then the number of
/// filler bytes, then the next-header byte.
pub open spec fn trailer(len: nat) -> Seq<u8> {
    filler(filler_len(len)) + seq![filler_len(len) as u8, NEXT_HEADER_IPV4]
}

/// A payload with its trailer.
pub open spec fn esp_pad(payload: Seq<u8>) -> Seq<u8> {
    payload + trailer(payload.len())
}

/// Whether `padded` ends in a pad-length byte and a next-header byte, with
/// room before them for as many filler bytes as the pad-length byte says.
pub open spec fn has_trailer(padded: Seq<u8>) -> bool {
    padded.len() >= 2 && padded[padded.len() - 2] + 2 <= padded.len()
}

/// What is left of `padded` without its trailer; `None` where it has none.
pub open spec fn esp_unpad(padded: Seq<u8>) -> Option<Seq<u8>> {
    if has_trailer(padded) {
        Some(padded.subrange(0, padded.len() - 2 - padded[padded.len() - 2]))
    } else {
        None
    }
}

/// The trailer fills the last block: whatever the payload's length, the padded
/// length is a multiple of the block size. Of the bytes appended, all but the
/// last are filler and pad length; the pad-length byte, which is the byte
/// before the last, holds their number less one, which is the number of
/// filler bytes. The last byte is the next-header value, and the filler
/// counts up from one.
pub proof fn lemma_padded_shape(payload: Seq<u8>)
    ensures
        esp_pad(payload).len() % 16 == 0,
        payload.len() + 2 <= esp_pad(payload).len() <= payload.len() + 17,
        esp_pad(payload).subrange(0, payload.len() as int) == payload,
        esp_pad(payload)[esp_pad(payload).len() - 2] == (esp_pad(payload).len() - payload.len()
            - 1) - 1,
        esp_pad(payload)[esp_pad(payload).len() - 2] == filler_len(payload.len()),
        esp_pad(payload)[esp_pad(payload).len() - 1] == NEXT_HEADER_IPV4,
        forall|i: int|
            0 <= i < filler_len(payload.len()) ==> #[trigger] esp_pad(payload)[payload.len() + i]
                == i + 1,
{
    assert(esp_pad(payload).subrange(0, payload.len() as int) =~= payload);
}

/// Taking the trailer off a padded payload gives the payload back.
pub proof fn lemma_unpad_pad(payload: Seq<u8>)
    ensures
        esp_unpad(esp_pad(payload)) == Some(payload),
{
}

/// Appends the trailer to `data`.
pub fn append_trailer(data: &mut Vec<u8>)
    ensures
        final(data)@ == esp_pad(old(data)@),
{
    let len: usize = data.len();
    let gap: usize = BLOCK_SIZE - 1 - len % BLOCK_SIZE;
    let count: u8 = if gap == 0 {
        15
    } else {
        (gap - 1) as u8
    };
    let mut i: u8 = 0;
    while i < count
        invariant
            i <= count <= 15,
            data@ == old(data)@ + filler(i as nat),
        decreases count - i,
    {
        data.push(i + 1);
        i += 1;
    }
    data.push(count);
    data.push(NEXT_HEADER_IPV4);
}

/// Takes the trailer off `padded`; `None` where it has none.
pub fn strip_trailer(padded: &[u8]) -> (payload: Option<Vec<u8>>)
    ensures
        match esp_unpad(padded@) {
            Some(p) => payload matches Some(v) && v@ == p,
            None => payload is None,
        },
{
    let len: usize = padded.len();
    if len < 2 {
        return None;
    }
    let count: usize = padded[len - 2] as usize;
    if count + 2 > len {
        return None;
    }
    Some(copy_range(padded, 0, len - 2 - count))
}

} // verus!
