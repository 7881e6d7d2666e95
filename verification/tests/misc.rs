use hardware_trust_engine::attestation::{prepare_private_attestation_at, CHALLENGE_LENGTH};
use hardware_trust_engine::ffi::{
    input_available, output_accepts, HTE_SIGNATURE_NOT_VERIFIED,
};
use hardware_trust_engine::jni::process_attestation_payload;
use hardware_trust_engine::attestation::finalize_private_attestation_at;
use hardware_trust_engine::{
    HteAttestationEnvelopeMetadata, HteError, HtePreparedAttestationMetadata,
    ReceiptProofMaterial,
};

#[test]
fn metadata_reflects_prepared_state_and_envelope() {
    let prepared = match prepare_private_attestation_at(b"payload", 77) {
        Ok(prepared) => prepared,
        Err(error) => panic!("{}", error.to_string()),
    };
    let metadata = HtePreparedAttestationMetadata::for_prepared(&prepared);
    assert_eq!(&metadata.challenge, prepared.challenge());
    assert_eq!(metadata.timestamp_ms, 77);
    assert_eq!(metadata.signing_message_len, prepared.signing_message().len());
    assert_eq!(metadata.signing_message_len, 75 + 7);

    let message = prepared.signing_message().to_vec();
    let envelope = finalize_private_attestation_at(prepared, &message, b"unverified", 78).unwrap();
    let metadata = HteAttestationEnvelopeMetadata::for_envelope(&envelope);
    assert_eq!(metadata.signature_verification, HTE_SIGNATURE_NOT_VERIFIED);
    assert_eq!(metadata.signed_data_len, message.len());
    assert_eq!(metadata.signature_len, 10);
    assert_eq!(metadata.challenge.len(), CHALLENGE_LENGTH);
}

#[test]
fn buffer_checks_follow_the_c_interface_rules() {
    assert!(input_available(0, true));
    assert!(input_available(4, false));
    assert!(!input_available(4, true));

    assert!(output_accepts(0, 0, true));
    assert!(output_accepts(5, 5, false));
    assert!(!output_accepts(5, 4, false));
    assert!(!output_accepts(5, 5, true));
}

#[test]
fn android_bridge_refuses_every_payload() {
    let error = process_attestation_payload(String::new()).unwrap_err();
    assert_eq!(error.to_string(), "Invalid attestation data: input payload is empty");
    let error = process_attestation_payload("data".to_string()).unwrap_err();
    assert!(matches!(error, HteError::Unsupported(_)));
    assert_eq!(
        error.to_string(),
        "Unsupported operation: Android attestation processing is not implemented"
    );
}

#[test]
fn receipt_material_borrows_its_inputs() {
    let material = ReceiptProofMaterial::new(b"proof", b"inputs");
    assert_eq!(material.proof_bytes, b"proof");
    assert_eq!(material.public_inputs_bytes, b"inputs");
}

#[test]
fn error_rendering_uses_each_kind_prefix() {
    assert_eq!(
        HteError::FfiError("x".to_string()).to_string(),
        "FFI error: x"
    );
    assert_eq!(
        HteError::Asn1ParsingError("y".to_string()).to_string(),
        "ASN.1 parsing error: y"
    );
    let json_error = serde_json::from_str::<u8>("not json").unwrap_err();
    assert!(HteError::SerializationError(json_error)
        .to_string()
        .starts_with("Serialization error: "));
}

#[test]
fn json_errors_convert_into_serialization_errors() {
    let json_error = serde_json::from_str::<u32>("[").unwrap_err();
    let error = HteError::from(json_error);
    assert!(matches!(error, HteError::SerializationError(_)));
}
