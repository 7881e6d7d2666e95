use hardware_trust_engine::{
    HteError, NoirProofBackend, ReceiptVerifierPlugin, VerifierRegistry,
};

struct RejectingVerifier;

impl ReceiptVerifierPlugin for RejectingVerifier {
    fn verify_receipt(
        &self,
        _receipt_proof: &[u8],
        _public_inputs: &[u8],
    ) -> Result<(), HteError> {
        Err(HteError::VerificationFailed("rejected in test".to_string()))
    }
}

struct AcceptingVerifier;

impl ReceiptVerifierPlugin for AcceptingVerifier {
    fn verify_receipt(&self, _receipt_proof: &[u8], _public_inputs: &[u8]) -> Result<(), HteError> {
        Ok(())
    }
}

#[test]
fn registry_fails_closed_without_registered_verifier() {
    let registry = VerifierRegistry::new();

    assert!(registry.get_verifier("noir").is_none());
    assert!(registry.get_verifier("tee").is_none());
}

#[test]
fn registry_dispatches_only_explicitly_registered_verifier() {
    let mut registry = VerifierRegistry::new();
    registry
        .register("test", Box::new(RejectingVerifier))
        .unwrap();

    let error = registry
        .get_verifier("test")
        .unwrap()
        .verify_receipt(b"proof", b"inputs")
        .unwrap_err();

    assert!(error.to_string().contains("rejected in test"));
}

#[test]
fn registry_rejects_empty_and_duplicate_encodings() {
    let mut registry = VerifierRegistry::new();
    assert!(registry.register("", Box::new(RejectingVerifier)).is_err());
    registry
        .register("test", Box::new(RejectingVerifier))
        .unwrap();
    assert!(registry
        .register("test", Box::new(RejectingVerifier))
        .is_err());
}

#[test]
fn registry_rejects_blank_encodings_and_reports_duplicates() {
    let mut registry = VerifierRegistry::new();
    let error = registry
        .register(" \t\u{3000}", Box::new(RejectingVerifier))
        .unwrap_err();
    assert_eq!(
        error.to_string(),
        "Invalid proof: proof encoding must not be empty"
    );
    assert!(registry.get_verifier(" \t\u{3000}").is_none());

    registry.register(" noir ", Box::new(AcceptingVerifier)).unwrap();
    let error = registry
        .register(" noir ", Box::new(RejectingVerifier))
        .unwrap_err();
    assert_eq!(
        error.to_string(),
        "Invalid proof: verifier already registered for  noir "
    );
    assert!(registry.get_verifier("noir").is_none());
    assert!(registry
        .get_verifier(" noir ")
        .unwrap()
        .verify_receipt(b"p", b"i")
        .is_ok());
}

#[test]
fn registry_keeps_earlier_registrations() {
    let mut registry = VerifierRegistry::new();
    registry.register("a", Box::new(AcceptingVerifier)).unwrap();
    registry.register("b", Box::new(RejectingVerifier)).unwrap();
    assert!(registry.get_verifier("a").unwrap().verify_receipt(b"", b"").is_ok());
    assert!(registry.get_verifier("b").unwrap().verify_receipt(b"", b"").is_err());
    assert!(registry.get_verifier("c").is_none());
}

#[test]
fn noir_backend_checks_key_and_proof_before_native_call() {
    assert!(matches!(
        NoirProofBackend::new(Vec::new()),
        Err(HteError::InvalidProof(_))
    ));
    let backend = match NoirProofBackend::new(vec![1, 2, 3]) {
        Ok(backend) => backend,
        Err(error) => panic!("{}", error.to_string()),
    };

    let error = backend
        .verify_proof(b"", b"inputs", |_, _, _| panic!("native verifier must not run"))
        .unwrap_err();
    assert_eq!(error.to_string(), "Invalid proof: proof must not be empty");

    assert!(backend
        .verify_proof(b"proof", b"inputs", |key: &Vec<u8>, proof: &[u8], inputs: &[u8]| {
            key == &vec![1, 2, 3] && proof == b"proof" && inputs == b"inputs"
        })
        .is_ok());

    let error = backend
        .verify_proof(b"proof", b"inputs", |_, _, _| false)
        .unwrap_err();
    assert_eq!(
        error.to_string(),
        "Verification failed: Barretenberg rejected the Noir proof"
    );
}

struct TaggedVerifier(&'static str);

impl ReceiptVerifierPlugin for TaggedVerifier {
    fn verify_receipt(&self, _receipt_proof: &[u8], _public_inputs: &[u8]) -> Result<(), HteError> {
        Err(HteError::VerificationFailed(self.0.to_string()))
    }
}

#[test]
fn default_registry_is_empty_and_dispatches_the_registered_object() {
    let mut registry = VerifierRegistry::default();
    assert!(registry.get_verifier("noir").is_none());

    registry.register("noir", Box::new(TaggedVerifier("first"))).unwrap();
    registry.register("tee", Box::new(TaggedVerifier("second"))).unwrap();
    assert!(registry
        .register("noir", Box::new(TaggedVerifier("third")))
        .is_err());

    let noir = registry.get_verifier("noir").unwrap().verify_receipt(b"", b"").unwrap_err();
    assert_eq!(noir.to_string(), "Verification failed: first");
    let tee = registry.get_verifier("tee").unwrap().verify_receipt(b"", b"").unwrap_err();
    assert_eq!(tee.to_string(), "Verification failed: second");
}
