//! The Internet checksum of IPv4 and ICMP headers, as the `pnet` crate
//! computes it.

use vstd::prelude::*;
use crate::libs::wire::be16;

verus! {

/// The longest buffer that is summed here: the largest IPv4 packet.
pub const MAX_SUMMED_LEN: usize = 65535;

/// The 16-bit word number `i` of `data`, most significant byte first. A last
/// byte without a partner is the upper half of its word.
pub open spec fn word_at(data: Seq<u8>, i: int) -> int {
    if 2 * i + 1 < data.len() {
        data[2 * i] * 256 + data[2 * i + 1]
    } else {
        data[2 * i] * 256
    }
}

/// The sum of the first `n` words of `data`, but for word `skip`.
pub open spec fn word_sum(data: Seq<u8>, skip: int, n: int) -> int
    decreases n,
{
    if n <= 0 {
        0
    } else if n - 1 == skip {
        word_sum(data, skip, n - 1)
    } else {
        word_sum(data, skip, n - 1) + word_at(data, n - 1)
    }
}

/// `sum` with what exceeds 16 bits added back in at the low end, until
/// nothing exceeds them.
pub open spec fn fold_carries(sum: int) -> int
    decreases sum,
{
    if sum < 0x1_0000 {
        sum
    } else {
        fold_carries(sum / 0x1_0000 + sum % 0x1_0000)
    }
}

/// The Internet checksum of `data` with word `skip`, the checksum field
/// itself, left out: the ones' complement of the folded sum of its words.
pub open spec fn internet_checksum(data: Seq<u8>, skip: int) -> u16 {
    (0xffff - fold_carries(word_sum(data, skip, (data.len() as int + 1) / 2))) as u16
}

/// `data` with `sum` written, in network order, into word `word`.
pub open spec fn with_checksum(data: Seq<u8>, word: int, sum: u16) -> Seq<u8> {
    data.update(2 * word, be16(sum)[0]).update(2 * word + 1, be16(sum)[1])
}

/// The folded sum of all words of `data`: what a receiver computes, which
/// takes a buffer for intact where this is `0xffff`.
pub open spec fn folded_sum(data: Seq<u8>) -> int {
    fold_carries(word_sum(data, -1, (data.len() as int + 1) / 2))
}

/// Folding keeps a sum within 16 bits, keeps it positive where it was, and
/// keeps its remainder modulo `0xffff`.
pub proof fn lemma_fold_carries(sum: int)
    requires
        sum >= 0,
    ensures
        0 <= fold_carries(sum) <= 0xffff,
        sum > 0 ==> fold_carries(sum) > 0,
        fold_carries(sum) % 0xffff == sum % 0xffff,
    decreases sum,
{
    if sum >= 0x1_0000 {
        lemma_fold_carries(sum / 0x1_0000 + sum % 0x1_0000);
    }
}

/// A sum of words is not negative, and each word adds `0xffff` at most.
pub proof fn lemma_word_sum_bounds(data: Seq<u8>, skip: int, n: int)
    requires
        0 <= n <= (data.len() + 1) / 2,
    ensures
        0 <= word_sum(data, skip, n) <= 0xffff * n,
    decreases n,
{
    if n > 0 {
        lemma_word_sum_bounds(data, skip, n - 1);
    }
}

/// Writing a value into the checksum field adds it to the sum of the other
/// words.
pub proof fn lemma_word_sum_with_checksum(data: Seq<u8>, skip: int, sum: u16, n: int)
    requires
        0 <= skip,
        2 * skip + 1 < data.len(),
        0 <= n <= (data.len() + 1) / 2,
    ensures
        word_sum(with_checksum(data, skip, sum), -1, n) == word_sum(data, skip, n) + if skip < n {
            sum as int
        } else {
            0
        },
    decreases n,
{
    if n > 0 {
        lemma_word_sum_with_checksum(data, skip, sum, n - 1);
    }
}

/// A buffer that carries its own checksum passes the receiver's test: with
/// the checksum written into its field, all words together fold to `0xffff`.
pub proof fn lemma_checksum_verifies(data: Seq<u8>, skip: int)
    requires
        0 <= skip,
        2 * skip + 1 < data.len(),
    ensures
        folded_sum(with_checksum(data, skip, internet_checksum(data, skip))) == 0xffff,
{
    let words = (data.len() as int + 1) / 2;
    let rest = word_sum(data, skip, words);
    let sum = internet_checksum(data, skip);
    lemma_word_sum_bounds(data, skip, words);
    lemma_fold_carries(rest);
    lemma_word_sum_with_checksum(data, skip, sum, words);
    lemma_fold_carries(rest + sum);
}

/// The checksum of an IPv4 header without options.
///
/// Calls `pnet::packet::ipv4::checksum` on `pnet::packet::ipv4::Ipv4Packet::new`
/// of the header. Trusted: for a buffer of 20 bytes whose first byte gives a
/// header length of five words, the crate sums all ten words but the sixth,
/// folds the carries and complements.
#[verifier::external_body]
pub(crate) fn ipv4_header_checksum(header: &[u8]) -> (sum: u16)
    requires
        header@.len() == 20,
        header@[0] == 0x45,
    ensures
        sum == internet_checksum(header@, 5),
{
    pnet::packet::ipv4::checksum(&pnet::packet::ipv4::Ipv4Packet::new(header).unwrap())
}

/// The checksum of an ICMP message.
///
/// Calls `pnet::packet::icmp::checksum` on `pnet::packet::icmp::IcmpPacket::new`
/// of the message. Trusted: the crate sums all words of the message but the
/// second, a last odd byte as the upper half of a word, folds the carries and
/// complements. A message of fewer than four bytes is no ICMP packet to the
/// crate, and the sum of a longer one than the bound might not fit.
#[verifier::external_body]
pub(crate) fn icmp_checksum(message: &[u8]) -> (sum: u16)
    requires
        4 <= message@.len() <= MAX_SUMMED_LEN,
    ensures
        sum == internet_checksum(message@, 1),
{
    pnet::packet::icmp::checksum(&pnet::packet::icmp::IcmpPacket::new(message).unwrap())
}

} // verus!
