use vstd::prelude::*;

verus! {

/// The MD5 digest of a byte sequence.
pub uninterp spec fn md5_of(data: Seq<u8>) -> Seq<u8>;

/// Relies on md5::compute: the 16-byte MD5 digest of `data`.
#[verifier::external_body]
fn md5_digest(data: &[u8]) -> (r: [u8; 16])
    ensures
        r@ == md5_of(data@),
{
    md5::compute(data).0
}

/// A buffer ready to be sent, with the checksum the service verifies it by.
pub struct Payload {
    pub data: Vec<u8>,
    pub checksum: [u8; 16],
}

/// Whether a checksum that was sent agrees with the bytes received.
pub open spec fn checksum_agrees(sent: Seq<u8>, received: Seq<u8>) -> bool {
    sent == md5_of(received)
}

/// Attach the checksum of exactly these bytes.
pub fn payload_with_checksum(data: Vec<u8>) -> (r: Payload)
    ensures
        r.data@ == data@,
        r.checksum@ == md5_of(data@),
{
    let checksum = md5_digest(data.as_slice());
    Payload { data, checksum }
}

/// Whether two digests are equal, byte by byte.
pub fn digests_equal(a: &[u8; 16], b: &[u8; 16]) -> (r: bool)
    ensures
        r == (a@ == b@),
{
    let mut i: usize = 0;
    while i < 16
        invariant
            i <= 16,
            a@.len() == 16,
            b@.len() == 16,
            forall|j: int| 0 <= j < i ==> a@[j] == b@[j],
        decreases 16 - i,
    {
        if a[i] != b[i] {
            assert(a@[i as int] != b@[i as int]);
            return false;
        }
        i = i + 1;
    }
    assert(a@ =~= b@);
    true
}

/// Recompute the checksum of received bytes and compare it with the one sent.
pub fn checksum_matches(sent: &[u8; 16], received: &[u8]) -> (r: bool)
    ensures
        r == checksum_agrees(sent@, received@),
{
    let digest = md5_digest(received);
    digests_equal(sent, &digest)
}

/// The checksum attached to a payload agrees with the payload's bytes, and
/// with any byte sequence equal to them, such as the same bytes downloaded
/// again.
pub proof fn payload_checksum_round_trip(data: Seq<u8>, downloaded: Seq<u8>)
    requires
        downloaded == data,
    ensures
        checksum_agrees(md5_of(data), downloaded),
{
}

} // verus!
