//! Records and decisions of the C interface: opaque handles, metadata read
//! from prepared attestations and envelopes, and the buffer checks.
use crate::attestation::{AttestationEnvelope, PreparedAttestation, CHALLENGE_LENGTH};
use vstd::prelude::*;

verus! {

pub const HTE_FAILURE: i32 = 0;

pub const HTE_SUCCESS: i32 = 1;

pub const HTE_SIGNATURE_NOT_VERIFIED: u8 = 0;

/// Opaque C handle. Only the C interface may inspect its contents.
pub struct HtePreparedAttestationHandle {
    _private: [u8; 0],
}

/// Opaque C handle. Only the C interface may inspect its contents.
pub struct HteAttestationEnvelopeHandle {
    _private: [u8; 0],
}

#[derive(Debug, Clone, Copy, Default, PartialEq, Eq)]
pub struct HtePreparedAttestationMetadata {
    pub challenge: [u8; CHALLENGE_LENGTH],
    pub timestamp_ms: u64,
    pub signing_message_len: usize,
}

#[derive(Debug, Clone, Copy, Default, PartialEq, Eq)]
pub struct HteAttestationEnvelopeMetadata {
    pub challenge: [u8; CHALLENGE_LENGTH],
    pub timestamp_ms: u64,
    pub signed_data_len: usize,
    pub signature_len: usize,
    /// Always `HTE_SIGNATURE_NOT_VERIFIED`.
    pub signature_verification: u8,
}

impl HtePreparedAttestationMetadata {
    /// The metadata the C interface reports for a prepared attestation.
    pub fn for_prepared(prepared: &PreparedAttestation) -> (metadata: HtePreparedAttestationMetadata)
        ensures
            metadata.challenge == prepared.challenge_value(),
            metadata.timestamp_ms == prepared.prepared_at(),
            metadata.signing_message_len == prepared.message().len(),
    {
        HtePreparedAttestationMetadata {
            challenge: *prepared.challenge(),
            timestamp_ms: prepared.timestamp_ms(),
            signing_message_len: prepared.signing_message().len(),
        }
    }
}

impl HteAttestationEnvelopeMetadata {
    /// The metadata the C interface reports for an envelope; the signature is
    /// always reported as not verified.
    pub fn for_envelope(envelope: &AttestationEnvelope) -> (metadata: HteAttestationEnvelopeMetadata)
        ensures
            metadata.challenge == envelope.challenge,
            metadata.timestamp_ms == envelope.timestamp_ms,
            metadata.signed_data_len == envelope.signed_data@.len(),
            metadata.signature_len == envelope.signature@.len(),
            metadata.signature_verification == HTE_SIGNATURE_NOT_VERIFIED,
    {
        HteAttestationEnvelopeMetadata {
            challenge: envelope.challenge,
            timestamp_ms: envelope.timestamp_ms,
            signed_data_len: envelope.signed_data.len(),
            signature_len: envelope.signature.len(),
            signature_verification: HTE_SIGNATURE_NOT_VERIFIED,
        }
    }
}

/// Whether an input buffer can be read: an empty input needs no pointer, a
/// non-empty one needs a non-null pointer.
pub fn input_available(input_len: usize, input_is_null: bool) -> (available: bool)
    ensures
        available == (input_len == 0 || !input_is_null),
{
    input_len == 0 || !input_is_null
}

/// Whether `source_len` bytes may be copied to an output buffer of
/// `output_len` bytes: the buffer must be large enough, and non-null unless
/// nothing is copied.
pub fn output_accepts(source_len: usize, output_len: usize, output_is_null: bool) -> (accepts: bool)
    ensures
        accepts == (source_len <= output_len && (source_len == 0 || !output_is_null)),
{
    !(output_len < source_len || (output_is_null && source_len != 0))
}

} // verus!
