//! Tests of the request/response codec: canonical reduction, caller-form
//! round trips, and the durable encoding of signing outcomes.

use k256::elliptic_curve::Field;

use chainsig_core::types::{
    sign_request_args_to_sign_request, sign_request_to_sign_request_args, ConversionError, Payload,
    RequestAndResponse, RestoreError, SignRequest, SignRequestArgs, SignatureResponse,
    StoredRequestAndResponse, StoredSignatureResponse,
};

/// The SEC1 compressed encoding of the secp256k1 generator point.
const GENERATOR_COMPRESSED: [u8; 33] = [
    0x02, 0x79, 0xbe, 0x66, 0x7e, 0xf9, 0xdc, 0xbb, 0xac, 0x55, 0xa0, 0x62, 0x95, 0xce, 0x87,
    0x0b, 0x07, 0x02, 0x9b, 0xfc, 0xdb, 0x2d, 0xce, 0x28, 0xd9, 0x59, 0xf2, 0x81, 0x5b, 0x16,
    0xf8, 0x17, 0x98,
];

fn canonical(path: &str) -> SignRequest {
    SignRequest {
        path: path.to_string(),
        payload: Payload::Ecdsa([7u8; 32]),
        domain_id: 4,
        key_version: 0,
    }
}

#[test]
fn round_trip_canonical_request() {
    let request = canonical("m/44'/60'/0'");
    let args = sign_request_to_sign_request_args(canonical("m/44'/60'/0'"));
    assert_eq!(args.payload_v2, Some(Payload::Ecdsa([7u8; 32])));
    assert_eq!(args.deprecated_payload, None);
    assert_eq!(args.domain_id, Some(4));
    assert_eq!(args.deprecated_key_version, None);
    assert_eq!(sign_request_args_to_sign_request(args), Ok(request));
}

#[test]
fn conversion_rejects_two_payloads() {
    let args = SignRequestArgs {
        path: "p".to_string(),
        payload_v2: Some(Payload::Ecdsa([1u8; 32])),
        deprecated_payload: Some([1u8; 32]),
        domain_id: Some(0),
        deprecated_key_version: None,
    };
    assert_eq!(
        sign_request_args_to_sign_request(args),
        Err(ConversionError::AmbiguousPayload)
    );
}

#[test]
fn conversion_rejects_missing_payload() {
    let args = SignRequestArgs {
        path: "p".to_string(),
        payload_v2: None,
        deprecated_payload: None,
        domain_id: Some(0),
        deprecated_key_version: None,
    };
    assert_eq!(
        sign_request_args_to_sign_request(args),
        Err(ConversionError::AmbiguousPayload)
    );
}

#[test]
fn conversion_rejects_two_domain_fields() {
    let args = SignRequestArgs {
        path: "p".to_string(),
        payload_v2: Some(Payload::Eddsa(vec![1, 2, 3])),
        deprecated_payload: None,
        domain_id: Some(1),
        deprecated_key_version: Some(0),
    };
    assert_eq!(
        sign_request_args_to_sign_request(args),
        Err(ConversionError::AmbiguousDomain)
    );
}

#[test]
fn conversion_maps_legacy_fields() {
    let args = SignRequestArgs {
        path: "legacy".to_string(),
        payload_v2: None,
        deprecated_payload: Some([9u8; 32]),
        domain_id: None,
        deprecated_key_version: Some(3),
    };
    assert_eq!(
        sign_request_args_to_sign_request(args),
        Ok(SignRequest {
            path: "legacy".to_string(),
            payload: Payload::Ecdsa([9u8; 32]),
            domain_id: 3,
            key_version: 3,
        })
    );
}

#[test]
fn conversion_defaults_to_legacy_domain() {
    let args = SignRequestArgs {
        path: "default".to_string(),
        payload_v2: Some(Payload::Eddsa(vec![4, 5])),
        deprecated_payload: None,
        domain_id: None,
        deprecated_key_version: None,
    };
    assert_eq!(
        sign_request_args_to_sign_request(args),
        Ok(SignRequest {
            path: "default".to_string(),
            payload: Payload::Eddsa(vec![4, 5]),
            domain_id: 0,
            key_version: 0,
        })
    );
}

#[test]
fn stored_secp256k1_commits_to_compressed_encoding() {
    let response = SignatureResponse::Secp256k1 {
        big_r: k256::AffinePoint::GENERATOR,
        s: k256::Scalar::ONE,
        recovery_id: 1,
    };
    let stored = StoredSignatureResponse::from_signature_response(response).unwrap();
    match &stored {
        StoredSignatureResponse::Secp256k1 { big_r_bytes, s, recovery_id } => {
            assert_eq!(*big_r_bytes, GENERATOR_COMPRESSED);
            assert_eq!(*s, k256::Scalar::ONE);
            assert_eq!(*recovery_id, 1);
        }
        StoredSignatureResponse::Ed25519 { .. } => panic!("wrong variant"),
    }
    assert_eq!(
        stored.to_signature_response(),
        Ok(SignatureResponse::Secp256k1 {
            big_r: k256::AffinePoint::GENERATOR,
            s: k256::Scalar::ONE,
            recovery_id: 1,
        })
    );
}

#[test]
fn stored_round_trip_identity_point() {
    let response = SignatureResponse::Secp256k1 {
        big_r: k256::AffinePoint::IDENTITY,
        s: k256::Scalar::ZERO,
        recovery_id: 0,
    };
    let stored = StoredSignatureResponse::from_signature_response(response).unwrap();
    assert_eq!(
        stored.to_signature_response(),
        Ok(SignatureResponse::Secp256k1 {
            big_r: k256::AffinePoint::IDENTITY,
            s: k256::Scalar::ZERO,
            recovery_id: 0,
        })
    );
}

#[test]
fn stored_round_trip_ed25519() {
    let response = SignatureResponse::Ed25519 { signature: [7u8; 64] };
    let stored = StoredSignatureResponse::from_signature_response(response).unwrap();
    assert_eq!(
        stored.to_signature_response(),
        Ok(SignatureResponse::Ed25519 { signature: [7u8; 64] })
    );
}

#[test]
fn restore_rejects_corrupted_bytes() {
    let stored = StoredSignatureResponse::Secp256k1 {
        big_r_bytes: [0xffu8; 33],
        s: k256::Scalar::ONE,
        recovery_id: 0,
    };
    assert_eq!(
        stored.to_signature_response(),
        Err(RestoreError::InvalidPointEncoding)
    );
}

#[test]
fn restore_rejects_point_off_curve() {
    // Compressed tag with an x-coordinate above the field modulus.
    let mut bytes = [0xffu8; 33];
    bytes[0] = 0x02;
    let stored = StoredSignatureResponse::Secp256k1 {
        big_r_bytes: bytes,
        s: k256::Scalar::ONE,
        recovery_id: 0,
    };
    assert_eq!(
        stored.to_signature_response(),
        Err(RestoreError::InvalidPointEncoding)
    );
}

#[test]
fn from_error_is_the_failure_marker() {
    assert_eq!(StoredSignatureResponse::from_error(), Err(()));
}

#[test]
fn from_stored_restores_and_reshapes() {
    let stored = StoredRequestAndResponse {
        request: canonical("slot"),
        response: Ok(StoredSignatureResponse::Ed25519 { signature: [2u8; 64] }),
    };
    let out = RequestAndResponse::from_stored(stored);
    assert_eq!(out.request, sign_request_to_sign_request_args(canonical("slot")));
    assert_eq!(out.response, Ok(SignatureResponse::Ed25519 { signature: [2u8; 64] }));

    let failed = StoredRequestAndResponse { request: canonical("slot"), response: Err(()) };
    assert_eq!(RequestAndResponse::from_stored(failed).response, Err(()));
}

#[test]
fn from_stored_folds_restore_failure_into_failure_marker() {
    let stored = StoredRequestAndResponse {
        request: canonical("bad"),
        response: Ok(StoredSignatureResponse::Secp256k1 {
            big_r_bytes: [0xffu8; 33],
            s: k256::Scalar::ONE,
            recovery_id: 0,
        }),
    };
    assert_eq!(RequestAndResponse::from_stored(stored).response, Err(()));
}
