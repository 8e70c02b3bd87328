//! Boundary to the `bytes` crate: the codec's public byte streams travel as
//! `bytes::Bytes` buffers, and every octet the logic touches goes through the
//! conversions here.

use vstd::prelude::*;
use bytes::Bytes;

verus! {

#[verifier::external_type_specification]
#[verifier::external_body]
pub struct ExBytes(Bytes);

/// The octets that a `Bytes` buffer holds.
pub uninterp spec fn bytes_seq(b: Bytes) -> Seq<u8>;

/// Relies on `bytes::Bytes::from` for `Vec<u8>`: the buffer holds exactly the
/// vector's octets.
#[verifier::external_body]
pub fn bytes_from_vec(v: Vec<u8>) -> (r: Bytes)
    ensures
        bytes_seq(r) == v@,
{
    Bytes::from(v)
}

/// Relies on `bytes::Bytes::len`: the octet count of the buffer.
#[verifier::external_body]
pub fn bytes_len(b: &Bytes) -> (r: usize)
    ensures
        r == bytes_seq(*b).len(),
{
    b.len()
}

/// Relies on `bytes::Bytes::as_ref` (the `[u8]` view of the buffer) and
/// `slice::to_vec`: the vector holds exactly the buffer's octets.
#[verifier::external_body]
pub fn bytes_to_vec(b: &Bytes) -> (r: Vec<u8>)
    ensures
        r@ == bytes_seq(*b),
{
    b.as_ref().to_vec()
}

} // verus!
