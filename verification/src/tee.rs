//! Fail-closed entry points for Android key attestation and SGX/SEV quotes.
use crate::receipt_verifier::ReceiptVerifierPlugin;
use crate::HteError;
use vstd::prelude::*;
use vstd::std_specs::convert::TryFromSpecImpl;

verus! {

/// The security level an Android key attestation reports; `code` gives its
/// wire value (0, 1, 2).
#[derive(Debug, Clone, Copy, PartialEq, Eq, Structural)]
pub enum SecurityLevel {
    Software,
    Tee,
    StrongBox,
}

/// The security level with wire value `value`, if there is one.
pub open spec fn security_level_from_code(value: u32) -> Option<SecurityLevel> {
    if value == 0 {
        Some(SecurityLevel::Software)
    } else if value == 1 {
        Some(SecurityLevel::Tee)
    } else if value == 2 {
        Some(SecurityLevel::StrongBox)
    } else {
        None
    }
}

/// The wire value of a security level.
pub open spec fn security_level_code(level: SecurityLevel) -> u32 {
    match level {
        SecurityLevel::Software => 0,
        SecurityLevel::Tee => 1,
        SecurityLevel::StrongBox => 2,
    }
}

impl SecurityLevel {
    /// The wire value of this security level.
    pub fn code(self) -> (value: u32)
        ensures
            value == security_level_code(self),
    {
        match self {
            SecurityLevel::Software => 0,
            SecurityLevel::Tee => 1,
            SecurityLevel::StrongBox => 2,
        }
    }
}

impl TryFrom<u32> for SecurityLevel {
    type Error = HteError;

    fn try_from(value: u32) -> (level: Result<SecurityLevel, HteError>)
        ensures
            match security_level_from_code(value) {
                Some(l) => level == Ok::<SecurityLevel, HteError>(l),
                None => level matches Err(HteError::InvalidAttestationData(m)) && m@
                    == "unknown security level"@,
            },
    {
        match value {
            0 => Ok(SecurityLevel::Software),
            1 => Ok(SecurityLevel::Tee),
            2 => Ok(SecurityLevel::StrongBox),
            _ => Err(HteError::InvalidAttestationData(String::from_str("unknown security level"))),
        }
    }
}


/// Every security level is read back from its own wire value, and the wire
/// values are exactly 0, 1 and 2.
pub proof fn lemma_security_level_code_round_trip(level: SecurityLevel, value: u32)
    ensures
        security_level_from_code(security_level_code(level)) == Some(level),
        security_level_from_code(value) is Some <==> value <= 2,
        security_level_from_code(value) matches Some(l) ==> security_level_code(l) == value,
{
}

/// The key description carried by an Android key attestation.
#[derive(Debug, PartialEq, Eq, Structural)]
pub struct AndroidKeyDescription {
    pub attestation_version: u32,
    pub attestation_security_level: SecurityLevel,
    pub keymaster_version: u32,
    pub keymaster_security_level: SecurityLevel,
}

fn invalid_data(text: &str) -> (e: HteError)
    ensures
        e matches HteError::InvalidAttestationData(m) && m@ == text@,
{
    HteError::InvalidAttestationData(String::from_str(text))
}

fn unsupported(text: &str) -> (e: HteError)
    ensures
        e matches HteError::Unsupported(m) && m@ == text@,
{
    HteError::Unsupported(String::from_str(text))
}

impl AndroidKeyDescription {
    /// Parsing is deliberately unavailable until strict DER validation exists.
    pub fn from_asn1_der(der_bytes: &[u8]) -> (description: Result<AndroidKeyDescription, HteError>)
        ensures
            der_bytes@.len() == 0 ==> (description matches Err(HteError::InvalidAttestationData(m))
                && m@ == "Android key description is empty"@),
            der_bytes@.len() > 0 ==> (description matches Err(HteError::Unsupported(m)) && m@
                == "Android key attestation DER parsing is not implemented"@),
    {
        if der_bytes.is_empty() {
            return Err(invalid_data("Android key description is empty"));
        }
        Err(unsupported("Android key attestation DER parsing is not implemented"))
    }
}

pub struct TeeQuoteBackend;

impl TeeQuoteBackend {
    /// Fails closed until certificate parsing and trust-path validation exist.
    pub fn verify_android_attestation(
        attestation_cert_chain: &[&[u8]],
        google_root_ca_public_key: &[u8],
    ) -> (description: Result<AndroidKeyDescription, HteError>)
        ensures
            attestation_cert_chain@.len() == 0 ==> (description matches Err(
                HteError::InvalidAttestationData(m),
            ) && m@ == "empty certificate chain"@),
            attestation_cert_chain@.len() > 0 && google_root_ca_public_key@.len() == 0 ==> (
            description matches Err(HteError::UntrustedChain(m)) && m@
                == "trust anchor is empty"@),
            attestation_cert_chain@.len() > 0 && google_root_ca_public_key@.len() > 0 ==> (
            description matches Err(HteError::Unsupported(m)) && m@
                == "Android certificate-chain and key-attestation verification is not implemented"@),
    {
        if attestation_cert_chain.is_empty() {
            return Err(invalid_data("empty certificate chain"));
        }
        if google_root_ca_public_key.is_empty() {
            return Err(HteError::UntrustedChain(String::from_str("trust anchor is empty")));
        }
        Err(
            unsupported(
                "Android certificate-chain and key-attestation verification is not implemented",
            ),
        )
    }

    /// Fails closed until quote parsing and measurement policy exist.
    pub fn verify_sgx_sev_quote(quote_bytes: &[u8]) -> (verdict: Result<(), HteError>)
        ensures
            quote_bytes@.len() == 0 ==> (verdict matches Err(HteError::InvalidAttestationData(m))
                && m@ == "SGX/SEV quote is empty"@),
            quote_bytes@.len() > 0 ==> (verdict matches Err(HteError::Unsupported(m)) && m@
                == "SGX/SEV quote verification is not implemented"@),
    {
        if quote_bytes.is_empty() {
            return Err(invalid_data("SGX/SEV quote is empty"));
        }
        Err(unsupported("SGX/SEV quote verification is not implemented"))
    }
}

/// A receipt verifier that checks receipts as Android attestation chains
/// against a fixed trust anchor.
pub struct TeeQuoteReceiptVerifier {
    google_root_ca_public_key: Vec<u8>,
}

impl TeeQuoteReceiptVerifier {
    /// The trust anchor this verifier was made with.
    pub closed spec fn trust_anchor(&self) -> Seq<u8> {
        self.google_root_ca_public_key@
    }

    pub fn new(google_root_ca_public_key: Vec<u8>) -> (verifier: TeeQuoteReceiptVerifier)
        ensures
            verifier.trust_anchor() == google_root_ca_public_key@,
    {
        TeeQuoteReceiptVerifier { google_root_ca_public_key }
    }
}

impl ReceiptVerifierPlugin for TeeQuoteReceiptVerifier {
    fn verify_receipt(&self, receipt_proof: &[u8], _public_inputs: &[u8]) -> (verdict: Result<
        (),
        HteError,
    >)
        ensures
            self.trust_anchor().len() == 0 ==> (verdict matches Err(HteError::UntrustedChain(m))
                && m@ == "trust anchor is empty"@),
            self.trust_anchor().len() > 0 ==> (verdict matches Err(HteError::Unsupported(m)) && m@
                == "Android certificate-chain and key-attestation verification is not implemented"@),
    {
        let chain: [&[u8]; 1] = [receipt_proof];
        match TeeQuoteBackend::verify_android_attestation(
            chain.as_slice(),
            self.google_root_ca_public_key.as_slice(),
        ) {
            Ok(_) => Ok(()),
            Err(e) => Err(e),
        }
    }
}

/// The generic `TryFrom` contract is not claimed: the error carries text that
/// no spec function can build. Direct calls use the exact contract of `try_from`.
impl TryFromSpecImpl<u32> for SecurityLevel {
    open spec fn obeys_try_from_spec() -> bool {
        false
    }

    open spec fn try_from_spec(value: u32) -> Result<SecurityLevel, HteError> {
        arbitrary()
    }
}

} // verus!
