//! The decisions behind the Android bridge entry point.
use crate::HteError;
use vstd::prelude::*;

verus! {

/// Processes a payload handed over by the Android bridge. Processing is not
/// available yet, so every payload is refused.
pub fn process_attestation_payload(input: String) -> (output: Result<String, HteError>)
    ensures
        input@.len() == 0 ==> (output matches Err(HteError::InvalidAttestationData(m)) && m@
            == "input payload is empty"@),
        input@.len() > 0 ==> (output matches Err(HteError::Unsupported(m)) && m@
            == "Android attestation processing is not implemented"@),
{
    if input.as_str().is_empty() {
        return Err(HteError::InvalidAttestationData(String::from_str("input payload is empty")));
    }
    Err(HteError::Unsupported(String::from_str("Android attestation processing is not implemented")))
}

} // verus!
