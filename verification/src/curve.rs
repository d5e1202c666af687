//! Trusted boundary to the secp256k1 arithmetic of the `k256` crate.
//!
//! The rest of the library treats a curve point and a scalar as opaque
//! values; all it ever does with a point is serialize it to its fixed-width
//! SEC1 compressed encoding and decode such an encoding back.

use vstd::prelude::*;

use k256::elliptic_curve::group::GroupEncoding;

verus! {

#[verifier::external_type_specification]
#[verifier::external_body]
pub struct ExAffinePoint(k256::AffinePoint);

#[verifier::external_type_specification]
#[verifier::external_body]
pub struct ExScalar(k256::Scalar);

/// The 33-byte SEC1 compressed encoding of a secp256k1 point, a pure
/// function of the point value.
pub uninterp spec fn point_compress(p: k256::AffinePoint) -> Seq<u8>;

/// The secp256k1 point named by a 33-byte SEC1 compressed encoding, `None`
/// when the bytes name no point; a pure function of the bytes.
pub uninterp spec fn point_decode(bytes: Seq<u8>) -> Option<k256::AffinePoint>;

/// Relies on `GroupEncoding::to_bytes` of `k256::AffinePoint`: it returns the
/// SEC1 compressed encoding of the point, which depends on the point value
/// alone, and `GroupEncoding::from_bytes` decodes that canonical encoding
/// back to the same point (for the identity point, `to_bytes` zero-fills the
/// representation and `from_bytes` accepts exactly that form).
#[verifier::external_body]
pub(crate) fn compress_point(p: &k256::AffinePoint) -> (r: [u8; 33])
    ensures
        r@ == point_compress(*p),
        point_decode(r@) == Some(*p),
{
    let mut out = [0u8; 33];
    out.copy_from_slice(p.to_bytes().as_slice());
    out
}

/// Relies on `GroupEncoding::from_bytes` of `k256::AffinePoint`: it decodes a
/// 33-byte SEC1 compressed encoding, returning nothing when the bytes name no
/// curve point, and never panics; the result depends on the bytes alone.
#[verifier::external_body]
pub(crate) fn decode_point(bytes: &[u8; 33]) -> (r: Option<k256::AffinePoint>)
    ensures
        r == point_decode(bytes@),
{
    k256::AffinePoint::from_bytes(k256::CompressedPoint::from_slice(&bytes[..])).into()
}

} // verus!
