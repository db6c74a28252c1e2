//! HMAC-SHA1 cut to 96 bits. The message authentication code itself is what
//! the `hmac` and `sha1` crates compute.

use vstd::prelude::*;

verus! {

/// The bytes of an authentication tag.
pub const TAG_LEN: usize = 12;

/// The HMAC-SHA1 of `data` under `key`, all 20 bytes of it.
pub uninterp spec fn hmac_sha1_of(key: Seq<u8>, data: Seq<u8>) -> Seq<u8>;

/// The authentication tag of `data` under `key`: the first 12 bytes of its
/// HMAC-SHA1.
pub open spec fn hmac_sha1_96(key: Seq<u8>, data: Seq<u8>) -> Seq<u8> {
    hmac_sha1_of(key, data).subrange(0, TAG_LEN as int)
}

/// The HMAC-SHA1 of `data` under `key`.
///
/// Calls `Mac::new_from_slice`, `Mac::update` and `Mac::finalize` of
/// `hmac::Hmac<sha1::Sha1>`. Trusted: the 20 bytes are a function of the key
/// and the data alone. The crate accepts a key of any length.
#[verifier::external_body]
fn full_mac(key: &[u8], data: &[u8]) -> (mac: [u8; 20])
    ensures
        mac@ == hmac_sha1_of(key@, data@),
{
    let mut hasher = <hmac::Hmac<sha1::Sha1> as hmac::Mac>::new_from_slice(key).unwrap();
    hmac::Mac::update(&mut hasher, data);
    hmac::Mac::finalize(hasher).into_bytes().into()
}

/// The authentication tag of `data` under `key`.
pub fn hmac_sha1(key: &[u8], data: &[u8]) -> (tag: [u8; 12])
    ensures
        tag@ == hmac_sha1_96(key@, data@),
{
    let mac = full_mac(key, data);
    let mut tag = [0u8; 12];
    let mut i: usize = 0;
    while i < TAG_LEN
        invariant
            i <= TAG_LEN,
            forall|j: int| 0 <= j < i ==> tag@[j] == mac@[j],
        decreases TAG_LEN - i,
    {
        tag[i] = mac[i];
        i += 1;
    }
    tag
}

} // verus!
