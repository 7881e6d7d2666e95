use hardware_trust_engine::{
    AndroidKeyDescription, HteError, ReceiptVerifierPlugin, SecurityLevel, TeeQuoteBackend,
    TeeQuoteReceiptVerifier,
};

#[test]
fn parses_security_level_values_strictly() {
    assert_eq!(SecurityLevel::try_from(0).unwrap(), SecurityLevel::Software);
    assert_eq!(SecurityLevel::try_from(1).unwrap(), SecurityLevel::Tee);
    assert_eq!(
        SecurityLevel::try_from(2).unwrap(),
        SecurityLevel::StrongBox
    );
    assert!(SecurityLevel::try_from(3).is_err());
}

#[test]
fn android_parser_rejects_empty_and_fails_closed_for_non_empty_der() {
    assert!(matches!(
        AndroidKeyDescription::from_asn1_der(b""),
        Err(HteError::InvalidAttestationData(_))
    ));
    assert!(matches!(
        AndroidKeyDescription::from_asn1_der(b"not DER"),
        Err(HteError::Unsupported(_))
    ));
}

#[test]
fn android_verifier_never_accepts_placeholder_chain() {
    assert!(matches!(
        TeeQuoteBackend::verify_android_attestation(&[b"leaf", b"root"], b"anchor"),
        Err(HteError::Unsupported(_))
    ));
}

#[test]
fn sgx_sev_verifier_fails_closed() {
    assert!(matches!(
        TeeQuoteBackend::verify_sgx_sev_quote(b"quote"),
        Err(HteError::Unsupported(_))
    ));
}

#[test]
fn receipt_plugin_fails_closed() {
    let verifier = TeeQuoteReceiptVerifier::new(b"anchor".to_vec());

    assert!(matches!(
        verifier.verify_receipt(b"certificate", b""),
        Err(HteError::Unsupported(_))
    ));
}

#[test]
fn security_level_codes_round_trip() {
    for level in [SecurityLevel::Software, SecurityLevel::Tee, SecurityLevel::StrongBox] {
        assert_eq!(SecurityLevel::try_from(level.code()).unwrap(), level);
    }
    assert_eq!(SecurityLevel::Tee.code(), 1);
    let error = SecurityLevel::try_from(u32::MAX).unwrap_err();
    assert_eq!(
        error.to_string(),
        "Invalid attestation data: unknown security level"
    );
}

#[test]
fn tee_entry_points_report_each_missing_input() {
    assert!(matches!(
        TeeQuoteBackend::verify_android_attestation(&[], b"anchor"),
        Err(HteError::InvalidAttestationData(_))
    ));
    assert!(matches!(
        TeeQuoteBackend::verify_android_attestation(&[b"leaf"], b""),
        Err(HteError::UntrustedChain(_))
    ));
    assert!(matches!(
        TeeQuoteBackend::verify_sgx_sev_quote(b""),
        Err(HteError::InvalidAttestationData(_))
    ));
    let verifier = TeeQuoteReceiptVerifier::new(Vec::new());
    assert!(matches!(
        verifier.verify_receipt(b"certificate", b""),
        Err(HteError::UntrustedChain(_))
    ));
}
