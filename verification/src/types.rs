//! Request and response data model, and the codec between the caller-facing,
//! canonical and stored forms.
//!
//! A caller-facing request ([`SignRequestArgs`]) tolerates legacy fields; the
//! codec reduces it to exactly one canonical [`SignRequest`] or rejects it.
//! A transient signing outcome ([`SignatureResponse`]) is converted to a
//! durable, serialization-stable [`StoredSignatureResponse`] before it is
//! persisted, and restored bit-for-bit when the batch completes.

use vstd::prelude::*;

use crate::curve::{compress_point, decode_point, point_compress, point_decode};

verus! {

/// The payload to sign: either the legacy 32-byte ECDSA digest form or the
/// domain-scoped byte-string form.
#[derive(Clone, Debug, PartialEq)]
pub enum Payload {
    Ecdsa([u8; 32]),
    Eddsa(Vec<u8>),
}

/// The canonical, unambiguous form of one signing request.
#[derive(Clone, Debug, PartialEq)]
pub struct SignRequest {
    pub path: String,
    pub payload: Payload,
    pub domain_id: u64,
    pub key_version: u32,
}

/// The caller-facing form of one signing request, with optional new-style
/// fields and deprecated legacy fields kept for backward compatibility.
#[derive(Clone, Debug, PartialEq)]
pub struct SignRequestArgs {
    pub path: String,
    pub payload_v2: Option<Payload>,
    pub deprecated_payload: Option<[u8; 32]>,
    pub domain_id: Option<u64>,
    pub deprecated_key_version: Option<u32>,
}

/// Why a caller-facing request could not be reduced to a canonical one.
#[derive(Clone, Copy, Debug, PartialEq, Eq, Structural)]
pub enum ConversionError {
    /// The legacy and new-style payload fields do not resolve to exactly one
    /// payload: both are present, or neither is.
    AmbiguousPayload,
    /// Both the domain id and the deprecated key version are present.
    AmbiguousDomain,
}

/// A transient signing outcome, as the external signing service reports it.
#[derive(Debug, PartialEq)]
pub enum SignatureResponse {
    Secp256k1 { big_r: k256::AffinePoint, s: k256::Scalar, recovery_id: u8 },
    Ed25519 { signature: [u8; 64] },
}

/// The durable form of a signing outcome: the curve point is committed to
/// its fixed-width SEC1 compressed encoding.
#[derive(Debug, PartialEq)]
pub enum StoredSignatureResponse {
    Secp256k1 { big_r_bytes: [u8; 33], s: k256::Scalar, recovery_id: u8 },
    Ed25519 { signature: [u8; 64] },
}

/// Why a stored signing outcome could not be restored to its transient form.
#[derive(Clone, Copy, Debug, PartialEq, Eq, Structural)]
pub enum RestoreError {
    /// The stored bytes do not decode to a point of the curve.
    InvalidPointEncoding,
}

/// One durable accumulator record: a canonical request together with its
/// stored outcome, or the permanent per-slot failure marker.
#[derive(Debug, PartialEq)]
pub struct StoredRequestAndResponse {
    pub request: SignRequest,
    pub response: Result<StoredSignatureResponse, ()>,
}

/// One slot of the caller-facing aggregate: the request in caller-facing
/// form together with its restored outcome, or the failure marker.
#[derive(Debug, PartialEq)]
pub struct RequestAndResponse {
    pub request: SignRequestArgs,
    pub response: Result<SignatureResponse, ()>,
}

// ---------------------------------------------------------------------------
// Canonical <-> caller-facing request conversion
// ---------------------------------------------------------------------------

/// What reducing a caller-facing request to canonical form yields: the
/// payload must come from exactly one of the two payload fields, the domain
/// from at most one of the domain fields (absent both, the legacy domain 0),
/// and the key version mirrors the deprecated field, 0 when absent.
pub open spec fn canonical_spec(args: SignRequestArgs) -> Result<SignRequest, ConversionError> {
    match (args.payload_v2, args.deprecated_payload) {
        (Some(payload), None) => canonical_domain_spec(args, payload),
        (None, Some(bytes)) => canonical_domain_spec(args, Payload::Ecdsa(bytes)),
        _ => Err(ConversionError::AmbiguousPayload),
    }
}

/// The domain and key-version half of [`canonical_spec`].
pub open spec fn canonical_domain_spec(args: SignRequestArgs, payload: Payload) -> Result<
    SignRequest,
    ConversionError,
> {
    match (args.domain_id, args.deprecated_key_version) {
        (Some(domain_id), None) => Ok(
            SignRequest { path: args.path, payload, domain_id, key_version: 0 },
        ),
        (None, Some(key_version)) => Ok(
            SignRequest { path: args.path, payload, domain_id: key_version as u64, key_version },
        ),
        (None, None) => Ok(SignRequest { path: args.path, payload, domain_id: 0, key_version: 0 }),
        _ => Err(ConversionError::AmbiguousDomain),
    }
}

/// What mapping a canonical request back onto the caller-facing form yields:
/// the new-style slots are filled, the deprecated slots stay empty.
pub open spec fn caller_form_spec(request: SignRequest) -> SignRequestArgs {
    SignRequestArgs {
        path: request.path,
        payload_v2: Some(request.payload),
        deprecated_payload: None,
        domain_id: Some(request.domain_id),
        deprecated_key_version: None,
    }
}

/// Reduce a caller-facing request to its canonical form, rejecting it when
/// the legacy and new-style fields do not resolve to exactly one value.
pub fn sign_request_args_to_sign_request(args: SignRequestArgs) -> (r: Result<
    SignRequest,
    ConversionError,
>)
    ensures
        r == canonical_spec(args),
{
    let SignRequestArgs { path, payload_v2, deprecated_payload, domain_id, deprecated_key_version } =
        args;
    let payload = match (payload_v2, deprecated_payload) {
        (Some(payload), None) => payload,
        (None, Some(bytes)) => Payload::Ecdsa(bytes),
        _ => {
            return Err(ConversionError::AmbiguousPayload);
        },
    };
    match (domain_id, deprecated_key_version) {
        (Some(domain_id), None) => Ok(SignRequest { path, payload, domain_id, key_version: 0 }),
        (None, Some(key_version)) => Ok(
            SignRequest { path, payload, domain_id: key_version as u64, key_version },
        ),
        (None, None) => Ok(SignRequest { path, payload, domain_id: 0, key_version: 0 }),
        _ => Err(ConversionError::AmbiguousDomain),
    }
}

/// Map a canonical request back onto the caller-facing form; total, and
/// leaves the deprecated slots empty.
pub fn sign_request_to_sign_request_args(request: SignRequest) -> (r: SignRequestArgs)
    ensures
        r == caller_form_spec(request),
{
    let SignRequest { path, payload, domain_id, key_version: _ } = request;
    SignRequestArgs {
        path,
        payload_v2: Some(payload),
        deprecated_payload: None,
        domain_id: Some(domain_id),
        deprecated_key_version: None,
    }
}

// ---------------------------------------------------------------------------
// Transient <-> stored outcome conversion
// ---------------------------------------------------------------------------

/// The stored form commits to exactly the transient outcome: for the
/// secp256k1 variant the bytes are the compressed encoding of the point and
/// decode back to it, the other fields are kept unchanged.
pub open spec fn is_stored_of(stored: StoredSignatureResponse, response: SignatureResponse) -> bool {
    match (stored, response) {
        (
            StoredSignatureResponse::Secp256k1 { big_r_bytes, s, recovery_id },
            SignatureResponse::Secp256k1 { big_r, s: s0, recovery_id: rid0 },
        ) => big_r_bytes@ == point_compress(big_r) && point_decode(big_r_bytes@) == Some(big_r)
            && s == s0 && recovery_id == rid0,
        (
            StoredSignatureResponse::Ed25519 { signature },
            SignatureResponse::Ed25519 { signature: sig0 },
        ) => signature == sig0,
        _ => false,
    }
}

/// What restoring a stored outcome yields: the stored bytes are decoded back
/// to a curve point, and fail exactly when they name none.
pub open spec fn restore_spec(stored: StoredSignatureResponse) -> Result<
    SignatureResponse,
    RestoreError,
> {
    match stored {
        StoredSignatureResponse::Secp256k1 { big_r_bytes, s, recovery_id } => match point_decode(
            big_r_bytes@,
        ) {
            Some(big_r) => Ok(SignatureResponse::Secp256k1 { big_r, s, recovery_id }),
            None => Err(RestoreError::InvalidPointEncoding),
        },
        StoredSignatureResponse::Ed25519 { signature } => Ok(
            SignatureResponse::Ed25519 { signature },
        ),
    }
}

impl StoredSignatureResponse {
    /// Convert a transient outcome to its durable form; total for both
    /// variants.
    pub fn from_signature_response(response: SignatureResponse) -> (r: Result<
        StoredSignatureResponse,
        (),
    >)
        ensures
            r matches Ok(stored) && is_stored_of(stored, response),
    {
        match response {
            SignatureResponse::Secp256k1 { big_r, s, recovery_id } => {
                let big_r_bytes = compress_point(&big_r);
                Ok(StoredSignatureResponse::Secp256k1 { big_r_bytes, s, recovery_id })
            },
            SignatureResponse::Ed25519 { signature } => Ok(
                StoredSignatureResponse::Ed25519 { signature },
            ),
        }
    }

    /// The permanent per-slot failure marker.
    pub fn from_error() -> (r: Result<StoredSignatureResponse, ()>)
        ensures
            r == Result::<StoredSignatureResponse, ()>::Err(()),
    {
        Err(())
    }

    /// Restore the transient outcome from its durable form; fails exactly
    /// when the stored bytes do not decode to a curve point.
    pub fn to_signature_response(self) -> (r: Result<SignatureResponse, RestoreError>)
        ensures
            r == restore_spec(self),
    {
        match self {
            StoredSignatureResponse::Secp256k1 { big_r_bytes, s, recovery_id } => {
                match decode_point(&big_r_bytes) {
                    Some(big_r) => Ok(SignatureResponse::Secp256k1 { big_r, s, recovery_id }),
                    None => Err(RestoreError::InvalidPointEncoding),
                }
            },
            StoredSignatureResponse::Ed25519 { signature } => Ok(
                SignatureResponse::Ed25519 { signature },
            ),
        }
    }
}

/// Round trip of the durable form: restoring what the stored form commits
/// to yields exactly the original transient outcome.
pub proof fn lemma_stored_round_trip(stored: StoredSignatureResponse, response: SignatureResponse)
    requires
        is_stored_of(stored, response),
    ensures
        restore_spec(stored) == Ok::<SignatureResponse, RestoreError>(response),
{
}

/// What converting one durable accumulator record to its caller-facing
/// aggregate slot yields: the request in caller-facing form, and the
/// restored outcome with a restore failure folded into the same failure
/// marker as a signing failure.
pub open spec fn from_stored_spec(stored: StoredRequestAndResponse) -> RequestAndResponse {
    RequestAndResponse {
        request: caller_form_spec(stored.request),
        response: match stored.response {
            Ok(st) => match restore_spec(st) {
                Ok(response) => Ok(response),
                Err(_) => Err(()),
            },
            Err(_) => Err(()),
        },
    }
}

impl RequestAndResponse {
    /// Convert one durable accumulator record to its caller-facing aggregate
    /// slot.
    pub fn from_stored(stored: StoredRequestAndResponse) -> (r: RequestAndResponse)
        ensures
            r == from_stored_spec(stored),
    {
        let StoredRequestAndResponse { request, response } = stored;
        let request = sign_request_to_sign_request_args(request);
        let response = match response {
            Ok(st) => match st.to_signature_response() {
                Ok(response) => Ok(response),
                Err(_) => Err(()),
            },
            Err(_) => Err(()),
        };
        RequestAndResponse { request, response }
    }
}

} // verus!
