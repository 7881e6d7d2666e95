//! Hardware trust engine core: one-use, challenge-bound attestation
//! preparation, packaging of unverified signer output, fail-closed TEE entry
//! points and an explicit verifier registry.
use vstd::prelude::*;
use vstd::std_specs::convert::FromSpecImpl;

pub mod attestation;
pub mod ffi;
pub mod jni;
pub mod receipt;
pub mod tee;
pub mod receipt_verifier;

pub use attestation::{
    finalize_private_attestation, prepare_private_attestation, AttestationEnvelope,
    PreparedAttestation, SignatureVerification,
};
pub use ffi::{
    HteAttestationEnvelopeHandle, HteAttestationEnvelopeMetadata, HtePreparedAttestationHandle,
    HtePreparedAttestationMetadata,
};
pub use receipt::ReceiptProofMaterial;
pub use receipt_verifier::{
    NoirProofBackend, ReceiptVerifierPlugin, VerificationOutcome, VerifierRegistry,
};
pub use tee::{AndroidKeyDescription, SecurityLevel, TeeQuoteBackend, TeeQuoteReceiptVerifier};

verus! {

/// serde_json's error type, carried opaquely by [`HteError::SerializationError`].
#[verifier::external_type_specification]
#[verifier::external_body]
pub struct ExJsonError(serde_json::Error);

/// Errors reported by every fallible operation of the engine.
#[derive(Debug)]
pub enum HteError {
    VerificationFailed(String),
    InvalidProof(String),
    FfiError(String),
    InvalidAttestationData(String),
    UntrustedChain(String),
    AttestationStateError(String),
    SerializationError(serde_json::Error),
    Asn1ParsingError(String),
    Unsupported(String),
}

/// The fixed text that opens the rendering of each error kind.
pub open spec fn error_prefix(e: HteError) -> Seq<char> {
    match e {
        HteError::VerificationFailed(_) => "Verification failed: "@,
        HteError::InvalidProof(_) => "Invalid proof: "@,
        HteError::FfiError(_) => "FFI error: "@,
        HteError::InvalidAttestationData(_) => "Invalid attestation data: "@,
        HteError::UntrustedChain(_) => "Untrusted certificate chain: "@,
        HteError::AttestationStateError(_) => "Attestation state error: "@,
        HteError::SerializationError(_) => "Serialization error: "@,
        HteError::Asn1ParsingError(_) => "ASN.1 parsing error: "@,
        HteError::Unsupported(_) => "Unsupported operation: "@,
    }
}

/// The detail text that an error carries, for every kind that carries text.
pub open spec fn error_detail(e: HteError) -> Option<Seq<char>> {
    match e {
        HteError::VerificationFailed(m) => Some(m@),
        HteError::InvalidProof(m) => Some(m@),
        HteError::FfiError(m) => Some(m@),
        HteError::InvalidAttestationData(m) => Some(m@),
        HteError::UntrustedChain(m) => Some(m@),
        HteError::AttestationStateError(m) => Some(m@),
        HteError::SerializationError(_) => None,
        HteError::Asn1ParsingError(m) => Some(m@),
        HteError::Unsupported(m) => Some(m@),
    }
}

/// Renders a serde_json error with its `Display` implementation.
/// Nothing is stated of the text: it is whatever serde_json prints.
#[verifier::external_body]
fn json_error_text(error: &serde_json::Error) -> String {
    format!("{error}")
}

impl HteError {
    /// The human-readable rendering of the error: its kind's prefix followed by
    /// its detail text.
    pub fn to_string(&self) -> (text: String)
        ensures
            text@.len() >= error_prefix(*self).len(),
            text@.take(error_prefix(*self).len() as int) == error_prefix(*self),
            error_detail(*self) matches Some(d) ==> text@ == error_prefix(*self) + d,
    {
        let (mut text, detail) = match self {
            HteError::VerificationFailed(m) => (String::from_str("Verification failed: "), m.clone()),
            HteError::InvalidProof(m) => (String::from_str("Invalid proof: "), m.clone()),
            HteError::FfiError(m) => (String::from_str("FFI error: "), m.clone()),
            HteError::InvalidAttestationData(m) => (
                String::from_str("Invalid attestation data: "),
                m.clone(),
            ),
            HteError::UntrustedChain(m) => (String::from_str("Untrusted certificate chain: "), m.clone()),
            HteError::AttestationStateError(m) => (
                String::from_str("Attestation state error: "),
                m.clone(),
            ),
            HteError::SerializationError(e) => (String::from_str("Serialization error: "), json_error_text(e)),
            HteError::Asn1ParsingError(m) => (String::from_str("ASN.1 parsing error: "), m.clone()),
            HteError::Unsupported(m) => (String::from_str("Unsupported operation: "), m.clone()),
        };
        let ghost prefix = text@;
        text.append(detail.as_str());
        assert(text@.take(prefix.len() as int) =~= prefix);
        text
    }
}

impl From<serde_json::Error> for HteError {
    fn from(error: serde_json::Error) -> (e: HteError) {
        HteError::SerializationError(error)
    }
}

impl FromSpecImpl<serde_json::Error> for HteError {
    open spec fn obeys_from_spec() -> bool {
        true
    }

    open spec fn from_spec(error: serde_json::Error) -> HteError {
        HteError::SerializationError(error)
    }
}

} // verus!
