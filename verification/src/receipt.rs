//! Plain records that travel with receipts.
use vstd::prelude::*;

verus! {

/// Borrowed proof bytes and public inputs of a receipt.
#[derive(Debug)]
pub struct ReceiptProofMaterial<'a> {
    pub proof_bytes: &'a [u8],
    pub public_inputs_bytes: &'a [u8],
}

impl<'a> ReceiptProofMaterial<'a> {
    pub fn new(proof: &'a [u8], public_inputs: &'a [u8]) -> (material: ReceiptProofMaterial<'a>)
        ensures
            material.proof_bytes@ == proof@,
            material.public_inputs_bytes@ == public_inputs@,
    {
        ReceiptProofMaterial { proof_bytes: proof, public_inputs_bytes: public_inputs }
    }
}

/// The name and version of a verifier implementation.
#[derive(Debug, Clone, PartialEq, Eq)]
pub struct VerifierMetadata {
    pub name: String,
    pub version: String,
}

} // verus!
