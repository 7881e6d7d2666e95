# hardware_trust_engine

Core of a hardware trust engine, written in Verus and proved against its
contracts.

- `src/attestation.rs`: one-use prepared attestations with a 256-bit OS
  challenge, the domain-separated signing message (domain tag, challenge,
  little-endian timestamp and payload length, payload), finalization with the
  two-second expiration window and clock-rollback rejection, and envelopes that
  always mark the signature as not verified.
- `src/tee.rs`: security levels and the fail-closed Android key attestation and
  SGX/SEV entry points.
- `src/receipt_verifier.rs`: the receipt verifier trait, the registry that only
  dispatches explicitly registered verifiers, and the Noir backend decisions.
- `src/ffi.rs`, `src/jni.rs`, `src/receipt.rs`: records and decisions behind the
  C and Android interfaces.
- `app/`: the C ABI, the Android JNI entry point, the native Barretenberg
  adapter, and serde / `std::error::Error` forms of the library's records.

The library does not verify signatures, certificate chains, quotes or proofs:
callers must perform real cryptographic verification before trusting an
envelope.
