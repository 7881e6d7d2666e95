//! One-use attestation preparation and packaging of unverified signer output.
use crate::HteError;
use rand::rngs::OsRng;
use rand::RngCore;
use vstd::bytes::*;
use vstd::prelude::*;
use vstd::slice::slice_to_vec;
use zeroize::Zeroize;

verus! {

pub const CHALLENGE_LENGTH: usize = 32;

pub const ATTESTATION_EXPIRATION_MS: u64 = 2_000;

/// Number of bytes of the domain-separation tag that opens every signing message.
pub const SIGNING_DOMAIN_LEN: usize = 27;

/// Number of bytes that precede the payload in a signing message:
/// domain tag, challenge, timestamp and payload length.
pub const SIGNING_HEADER_LEN: usize = 75;

/// The domain-separation tag `kinhold-hte-attestation-v1\0`.
pub open spec fn signing_domain() -> Seq<u8> {
    seq![
        107u8, 105, 110, 104, 111, 108, 100, 45, 104, 116, 101, 45, 97, 116, 116, 101, 115,
        116, 97, 116, 105, 111, 110, 45, 118, 49, 0,
    ]
}

/// The exact message a hardware key signs: the domain tag, the challenge, the
/// timestamp and the payload length (both little-endian 64-bit), then the payload.
pub open spec fn signing_message_for(challenge: Seq<u8>, timestamp_ms: u64, payload: Seq<u8>) -> Seq<u8> {
    signing_domain() + challenge + spec_u64_to_le_bytes(timestamp_ms) + spec_u64_to_le_bytes(
        payload.len() as u64,
    ) + payload
}

/// Why finalization refuses a prepared attestation.
#[derive(Debug, Clone, Copy, PartialEq, Eq, Structural)]
pub enum FinalizeRejection {
    ClockRollback,
    Expired,
    EmptySignature,
    MessageMismatch,
}

/// The checks of finalization, in the order in which they are made.
pub open spec fn finalize_rejection(
    prepared_at: u64,
    message: Seq<u8>,
    signed_data: Seq<u8>,
    signature: Seq<u8>,
    now: u64,
) -> Option<FinalizeRejection> {
    if now < prepared_at {
        Some(FinalizeRejection::ClockRollback)
    } else if now - prepared_at > ATTESTATION_EXPIRATION_MS {
        Some(FinalizeRejection::Expired)
    } else if signature.len() == 0 {
        Some(FinalizeRejection::EmptySignature)
    } else if signed_data != message {
        Some(FinalizeRejection::MessageMismatch)
    } else {
        None
    }
}

/// The detail text of the state error that reports each rejection.
pub open spec fn rejection_text(why: FinalizeRejection) -> Seq<char> {
    match why {
        FinalizeRejection::ClockRollback => "system clock precedes attestation preparation"@,
        FinalizeRejection::Expired => "attestation challenge expired"@,
        FinalizeRejection::EmptySignature => "signature must not be empty"@,
        FinalizeRejection::MessageMismatch => "signed data does not match the prepared challenge"@,
    }
}

/// One-use state containing the exact message that a hardware key should sign.
///
/// This value is intentionally not `Clone`: finalization consumes it, preventing
/// safe Rust callers from finalizing the same challenge twice.
pub struct PreparedAttestation {
    signing_message: Vec<u8>,
    challenge: [u8; CHALLENGE_LENGTH],
    timestamp_ms: u64,
}

/// Whether this crate cryptographically verified the signature in an envelope.
#[derive(Debug, Clone, Copy, PartialEq, Eq, Structural)]
pub enum SignatureVerification {
    /// The signature bytes are transport data only. No public key verification occurred.
    NotPerformed,
}

/// A transport envelope, not proof of a valid hardware-backed signature.
#[derive(Debug)]
pub struct AttestationEnvelope {
    pub signed_data: Vec<u8>,
    pub signature: Vec<u8>,
    pub challenge: [u8; CHALLENGE_LENGTH],
    pub timestamp_ms: u64,
    pub signature_verification: SignatureVerification,
}

fn append_bytes(dst: &mut Vec<u8>, src: &[u8])
    ensures
        final(dst)@ == old(dst)@ + src@,
{
    let n = src.len();
    let mut i: usize = 0;
    while i < n
        invariant
            n == src@.len(),
            i <= n,
            dst@ == old(dst)@ + src@.take(i as int),
        decreases n - i,
    {
        dst.push(src[i]);
        i = i + 1;
        assert(src@.take(i as int) =~= src@.take(i - 1).push(src@[i - 1]));
    }
    assert(src@.take(n as int) =~= src@);
}

fn signing_domain_bytes() -> (domain: [u8; SIGNING_DOMAIN_LEN])
    ensures
        domain@ == signing_domain(),
{
    let domain: [u8; SIGNING_DOMAIN_LEN] = [
        107, 105, 110, 104, 111, 108, 100, 45, 104, 116, 101, 45, 97, 116, 116, 101, 115, 116, 97,
        116, 105, 111, 110, 45, 118, 49, 0,
    ];
    assert(domain@ =~= signing_domain());
    domain
}

/// Builds the domain-separated message that binds challenge, timestamp,
/// payload length and payload.
pub fn encode_signing_message(
    challenge: &[u8; CHALLENGE_LENGTH],
    timestamp_ms: u64,
    payload: &[u8],
) -> (message: Vec<u8>)
    ensures
        message@ == signing_message_for(challenge@, timestamp_ms, payload@),
{
    let mut message: Vec<u8> = Vec::new();
    let domain = signing_domain_bytes();
    append_bytes(&mut message, domain.as_slice());
    append_bytes(&mut message, challenge.as_slice());
    let timestamp_bytes = u64_to_le_bytes(timestamp_ms);
    append_bytes(&mut message, timestamp_bytes.as_slice());
    let length_bytes = u64_to_le_bytes(payload.len() as u64);
    append_bytes(&mut message, length_bytes.as_slice());
    append_bytes(&mut message, payload);
    assert(message@ =~= signing_message_for(challenge@, timestamp_ms, payload@));
    message
}

/// A signing message lays out, in order, the domain tag (bytes 0 to 27), the
/// challenge (27 to 59), the little-endian timestamp (59 to 67), the
/// little-endian payload length (67 to 75) and the payload.
pub proof fn lemma_signing_message_layout(challenge: Seq<u8>, timestamp_ms: u64, payload: Seq<u8>)
    requires
        challenge.len() == CHALLENGE_LENGTH,
    ensures
        ({
            let m = signing_message_for(challenge, timestamp_ms, payload);
            &&& m.len() == SIGNING_HEADER_LEN + payload.len()
            &&& m.take(SIGNING_DOMAIN_LEN as int) == signing_domain()
            &&& m.subrange(27, 59) == challenge
            &&& m.subrange(59, 67) == spec_u64_to_le_bytes(timestamp_ms)
            &&& m.subrange(67, 75) == spec_u64_to_le_bytes(payload.len() as u64)
            &&& m.skip(SIGNING_HEADER_LEN as int) == payload
        }),
{
    lemma_auto_spec_u64_to_from_le_bytes();
    let m = signing_message_for(challenge, timestamp_ms, payload);
    assert(m.take(27) =~= signing_domain());
    assert(m.subrange(27, 59) =~= challenge);
    assert(m.subrange(59, 67) =~= spec_u64_to_le_bytes(timestamp_ms));
    assert(m.subrange(67, 75) =~= spec_u64_to_le_bytes(payload.len() as u64));
    assert(m.skip(75) =~= payload);
}

/// A signing message binds its parts: two equal messages were built from the
/// same challenge, the same timestamp and the same payload.
pub proof fn lemma_signing_message_binds(
    challenge1: Seq<u8>,
    timestamp1: u64,
    payload1: Seq<u8>,
    challenge2: Seq<u8>,
    timestamp2: u64,
    payload2: Seq<u8>,
)
    requires
        challenge1.len() == CHALLENGE_LENGTH,
        challenge2.len() == CHALLENGE_LENGTH,
        signing_message_for(challenge1, timestamp1, payload1) == signing_message_for(
            challenge2,
            timestamp2,
            payload2,
        ),
    ensures
        challenge1 == challenge2,
        timestamp1 == timestamp2,
        payload1 == payload2,
{
    lemma_auto_spec_u64_to_from_le_bytes();
    lemma_signing_message_layout(challenge1, timestamp1, payload1);
    lemma_signing_message_layout(challenge2, timestamp2, payload2);
    assert(spec_u64_from_le_bytes(spec_u64_to_le_bytes(timestamp1)) == timestamp1);
    assert(spec_u64_from_le_bytes(spec_u64_to_le_bytes(timestamp2)) == timestamp2);
}

/// Fills `dest` from the operating system's random number generator
/// (`rand::rngs::OsRng`, `RngCore::try_fill_bytes`).
/// Nothing is stated of the bytes, nor of when it fails: both come from the OS.
#[verifier::external_body]
fn fill_from_os_rng(dest: &mut [u8; CHALLENGE_LENGTH]) -> Result<(), rand::Error> {
    OsRng.try_fill_bytes(dest)
}

/// `rand::Error`, the failure of the operating system's random source.
#[verifier::external_type_specification]
#[verifier::external_body]
pub struct ExRandError(rand::Error);

/// Renders a `rand::Error` with its `Display` implementation; nothing is stated of the text.
#[verifier::external_body]
fn random_error_text(error: &rand::Error) -> String {
    format!("{error}")
}

/// `std::time::SystemTime`, a reading of the system clock.
#[verifier::external_type_specification]
#[verifier::external_body]
pub struct ExSystemTime(std::time::SystemTime);

/// `std::time::SystemTimeError`, a clock reading earlier than the epoch it was measured from.
#[verifier::external_type_specification]
#[verifier::external_body]
pub struct ExSystemTimeError(std::time::SystemTimeError);

/// Reads the system clock (`SystemTime::now`); nothing is stated of the reading.
#[verifier::external_body]
fn clock_now() -> std::time::SystemTime {
    std::time::SystemTime::now()
}

/// The time elapsed from the Unix epoch to `now` (`SystemTime::duration_since`),
/// an error where `now` lies before the epoch. Nothing is stated of the result:
/// `SystemTime` is opaque here.
#[verifier::external_body]
fn elapsed_since_unix_epoch(
    now: &std::time::SystemTime,
) -> Result<std::time::Duration, std::time::SystemTimeError> {
    now.duration_since(std::time::UNIX_EPOCH)
}

/// The whole milliseconds of a duration (`Duration::as_millis`); nothing is
/// stated of the value: `Duration` is opaque here.
#[verifier::external_body]
fn whole_millis(duration: &std::time::Duration) -> u128 {
    duration.as_millis()
}

/// Renders a `SystemTimeError` with its `Display` implementation; nothing is stated of the text.
#[verifier::external_body]
fn clock_error_text(error: &std::time::SystemTimeError) -> String {
    format!("{error}")
}

/// Zeroizes a byte vector with `zeroize::Zeroize`: every element and the spare
/// capacity are overwritten with zeros and the vector is cleared.
#[verifier::external_body]
fn zeroize_bytes(bytes: &mut Vec<u8>)
    ensures
        final(bytes)@ == Seq::<u8>::empty(),
    opens_invariants none
    no_unwind
{
    bytes.zeroize();
}

/// Zeroizes a challenge array with `zeroize::Zeroize`: every element becomes 0.
#[verifier::external_body]
fn zeroize_challenge(bytes: &mut [u8; CHALLENGE_LENGTH])
    ensures
        forall|i: int| 0 <= i < CHALLENGE_LENGTH ==> #[trigger] final(bytes)@[i] == 0,
    opens_invariants none
    no_unwind
{
    bytes.zeroize();
}

/// Zeroizes an integer with `zeroize::Zeroize`: it becomes 0.
#[verifier::external_body]
fn zeroize_u64(value: &mut u64)
    ensures
        *final(value) == 0,
    opens_invariants none
    no_unwind
{
    value.zeroize();
}

fn detail(text: &str) -> (s: String)
    ensures
        s@ == text@,
{
    String::from_str(text)
}

fn bytes_equal(a: &[u8], b: &[u8]) -> (same: bool)
    ensures
        same == (a@ == b@),
{
    if a.len() != b.len() {
        return false;
    }
    let n = a.len();
    let mut i: usize = 0;
    while i < n
        invariant
            n == a@.len(),
            n == b@.len(),
            i <= n,
            forall|j: int| 0 <= j < i ==> a@[j] == b@[j],
        decreases n - i,
    {
        if a[i] != b[i] {
            return false;
        }
        i = i + 1;
    }
    assert(a@ =~= b@);
    true
}

impl PreparedAttestation {
    /// The message the hardware key must sign.
    pub closed spec fn message(&self) -> Seq<u8> {
        self.signing_message@
    }

    /// The 256-bit challenge bound into the message.
    pub closed spec fn challenge_value(&self) -> [u8; CHALLENGE_LENGTH] {
        self.challenge
    }

    /// The time of preparation, in milliseconds since the Unix epoch.
    pub closed spec fn prepared_at(&self) -> u64 {
        self.timestamp_ms
    }

    /// The message is the signing message of this challenge and timestamp for
    /// a non-empty payload.
    pub open spec fn wf(&self) -> bool {
        &&& self.message().len() > SIGNING_HEADER_LEN
        &&& self.message() == signing_message_for(
            self.challenge_value()@,
            self.prepared_at(),
            self.message().skip(SIGNING_HEADER_LEN as int),
        )
    }

    pub fn signing_message(&self) -> (message: &[u8])
        ensures
            message@ == self.message(),
    {
        self.signing_message.as_slice()
    }

    pub fn challenge(&self) -> (challenge: &[u8; CHALLENGE_LENGTH])
        ensures
            *challenge == self.challenge_value(),
    {
        &self.challenge
    }

    pub fn timestamp_ms(&self) -> (timestamp_ms: u64)
        ensures
            timestamp_ms == self.prepared_at(),
    {
        self.timestamp_ms
    }

    /// Prepares an attestation for `payload` with a challenge already drawn.
    ///
    /// Unlike [`prepare_private_attestation`], this lets the caller choose the
    /// challenge. The challenge must be fresh and drawn uniformly at random
    /// from a cryptographically secure source; a reused or predictable
    /// challenge defeats replay protection.
    pub fn with_challenge(
        payload: &[u8],
        challenge: [u8; CHALLENGE_LENGTH],
        timestamp_ms: u64,
    ) -> (prepared: Result<PreparedAttestation, HteError>)
        ensures
            payload@.len() == 0 <==> prepared is Err,
            prepared matches Err(e) ==> (e matches HteError::InvalidAttestationData(m)
                && m@ == "payload must not be empty"@),
            prepared matches Ok(p) ==> {
                &&& p.challenge_value() == challenge
                &&& p.prepared_at() == timestamp_ms
                &&& p.message() == signing_message_for(challenge@, timestamp_ms, payload@)
                &&& p.wf()
            },
    {
        if payload.is_empty() {
            return Err(HteError::InvalidAttestationData(detail("payload must not be empty")));
        }
        let signing_message = encode_signing_message(&challenge, timestamp_ms, payload);
        proof {
            lemma_signing_message_layout(challenge@, timestamp_ms, payload@);
        }
        Ok(PreparedAttestation { signing_message, challenge, timestamp_ms })
    }

    /// Overwrites the message, the challenge and the timestamp with zeros.
    pub fn zeroize(&mut self)
        ensures
            final(self).message() == Seq::<u8>::empty(),
            forall|i: int|
                0 <= i < CHALLENGE_LENGTH ==> #[trigger] final(self).challenge_value()@[i] == 0,
            final(self).prepared_at() == 0,
        opens_invariants none
        no_unwind
    {
        zeroize_bytes(&mut self.signing_message);
        zeroize_challenge(&mut self.challenge);
        zeroize_u64(&mut self.timestamp_ms);
    }
}

impl Drop for PreparedAttestation {
    fn drop(&mut self)
        opens_invariants none
        no_unwind
    {
        self.zeroize();
    }
}

fn attestation_state_error(text: &str) -> (e: HteError)
    ensures
        e matches HteError::AttestationStateError(m) && m@ == text@,
{
    HteError::AttestationStateError(detail(text))
}

/// Converts a clock reading in whole milliseconds to the `u64` timestamps the
/// engine works with.
pub fn timestamp_from_millis(millis: u128) -> (timestamp: Result<u64, HteError>)
    ensures
        millis <= u64::MAX ==> timestamp == Ok::<u64, HteError>(millis as u64),
        millis > u64::MAX ==> (timestamp matches Err(HteError::AttestationStateError(m))
            && m@ == "timestamp overflow"@),
{
    match u64::try_from(millis) {
        Ok(timestamp) => Ok(timestamp),
        Err(_) => Err(attestation_state_error("timestamp overflow")),
    }
}

/// `text` opens with `prefix`.
pub open spec fn starts_with(text: Seq<char>, prefix: Seq<char>) -> bool {
    text.len() >= prefix.len() && text.take(prefix.len() as int) == prefix
}

/// The detail text of a failed clock reading: a clock before the Unix epoch,
/// or a reading too large for `u64`.
pub open spec fn is_clock_failure_text(text: Seq<char>) -> bool {
    text == "timestamp overflow"@ || starts_with(text, "system clock error: "@)
}

/// Finalization at clock reading `now` refuses with detail text `text`.
pub open spec fn refused_at(
    prepared_at: u64,
    message: Seq<u8>,
    signed_data: Seq<u8>,
    signature: Seq<u8>,
    now: u64,
    text: Seq<char>,
) -> bool {
    finalize_rejection(prepared_at, message, signed_data, signature, now) matches Some(why)
        && text == rejection_text(why)
}

/// Finalization at clock reading `now` accepts.
pub open spec fn accepted_at(
    prepared_at: u64,
    message: Seq<u8>,
    signed_data: Seq<u8>,
    signature: Seq<u8>,
    now: u64,
) -> bool {
    finalize_rejection(prepared_at, message, signed_data, signature, now) is None
}

/// The current time in milliseconds since the Unix epoch. Every failure is a
/// state error: a clock before the epoch, or a reading too large for `u64`.
pub fn current_timestamp_ms() -> (timestamp: Result<u64, HteError>)
    ensures
        timestamp matches Err(e) ==> e is AttestationStateError,
        timestamp matches Err(HteError::AttestationStateError(m)) ==> is_clock_failure_text(m@),
{
    let now = clock_now();
    match elapsed_since_unix_epoch(&now) {
        Ok(elapsed) => timestamp_from_millis(whole_millis(&elapsed)),
        Err(error) => {
            let mut text = detail("system clock error: ");
            let ghost prefix = text@;
            let cause = clock_error_text(&error);
            text.append(cause.as_str());
            assert(text@.take(prefix.len() as int) =~= prefix);
            Err(HteError::AttestationStateError(text))
        },
    }
}

/// Prepares a one-use attestation for `payload` at `timestamp_ms`, drawing a
/// fresh 256-bit challenge from the operating system.
pub fn prepare_private_attestation_at(payload: &[u8], timestamp_ms: u64) -> (prepared: Result<
    PreparedAttestation,
    HteError,
>)
    ensures
        payload@.len() == 0 ==> (prepared matches Err(HteError::InvalidAttestationData(m))
            && m@ == "payload must not be empty"@),
        payload@.len() > 0 ==> (prepared matches Err(e) ==> e is AttestationStateError),
        prepared matches Err(HteError::AttestationStateError(m)) ==> starts_with(
            m@,
            "challenge generation failed: "@,
        ),
        prepared matches Ok(p) ==> {
            &&& p.prepared_at() == timestamp_ms
            &&& p.message() == signing_message_for(p.challenge_value()@, timestamp_ms, payload@)
            &&& p.wf()
        },
{
    if payload.is_empty() {
        return Err(HteError::InvalidAttestationData(detail("payload must not be empty")));
    }
    match u64::try_from(payload.len()) {
        Ok(_) => {},
        Err(_) => {
            return Err(HteError::InvalidAttestationData(detail("payload is too large to encode")));
        },
    }
    let mut challenge = [0u8; CHALLENGE_LENGTH];
    match fill_from_os_rng(&mut challenge) {
        Ok(()) => {},
        Err(error) => {
            let mut text = detail("challenge generation failed: ");
            let ghost prefix = text@;
            let cause = random_error_text(&error);
            text.append(cause.as_str());
            assert(text@.take(prefix.len() as int) =~= prefix);
            return Err(HteError::AttestationStateError(text));
        },
    }
    PreparedAttestation::with_challenge(payload, challenge, timestamp_ms)
}

/// Packages signer output without cryptographically verifying it, checking the
/// clock against the time of preparation at `current_timestamp_ms`.
pub fn finalize_private_attestation_at(
    prepared_attestation: PreparedAttestation,
    signed_data: &[u8],
    signature: &[u8],
    current_timestamp_ms: u64,
) -> (envelope: Result<AttestationEnvelope, HteError>)
    ensures
        match finalize_rejection(
            prepared_attestation.prepared_at(),
            prepared_attestation.message(),
            signed_data@,
            signature@,
            current_timestamp_ms,
        ) {
            Some(why) => envelope matches Err(HteError::AttestationStateError(m)) && m@
                == rejection_text(why),
            None => envelope matches Ok(env) && {
                &&& env.signed_data@ == signed_data@
                &&& env.signature@ == signature@
                &&& env.challenge == prepared_attestation.challenge_value()
                &&& env.timestamp_ms == prepared_attestation.prepared_at()
                &&& env.signature_verification == SignatureVerification::NotPerformed
            },
        },
{
    if current_timestamp_ms < prepared_attestation.timestamp_ms {
        return Err(attestation_state_error("system clock precedes attestation preparation"));
    }
    let age_ms = current_timestamp_ms - prepared_attestation.timestamp_ms;
    if age_ms > ATTESTATION_EXPIRATION_MS {
        return Err(attestation_state_error("attestation challenge expired"));
    }
    if signature.is_empty() {
        return Err(attestation_state_error("signature must not be empty"));
    }
    if !bytes_equal(signed_data, prepared_attestation.signing_message.as_slice()) {
        return Err(attestation_state_error("signed data does not match the prepared challenge"));
    }
    Ok(AttestationEnvelope {
        signed_data: slice_to_vec(signed_data),
        signature: slice_to_vec(signature),
        challenge: prepared_attestation.challenge,
        timestamp_ms: prepared_attestation.timestamp_ms,
        signature_verification: SignatureVerification::NotPerformed,
    })
}

/// Prepares a one-use attestation for `payload` at the current time.
pub fn prepare_private_attestation(payload: &[u8]) -> (prepared: Result<
    PreparedAttestation,
    HteError,
>)
    ensures
        payload@.len() == 0 ==> prepared is Err,
        prepared matches Err(e) ==> (e is InvalidAttestationData && payload@.len() == 0)
            || e is AttestationStateError,
        prepared matches Err(HteError::InvalidAttestationData(m)) ==> m@
            == "payload must not be empty"@,
        prepared matches Err(HteError::AttestationStateError(m)) ==> is_clock_failure_text(m@)
            || (payload@.len() > 0 && starts_with(m@, "challenge generation failed: "@)),
        prepared matches Ok(p) ==> {
            &&& p.message() == signing_message_for(
                p.challenge_value()@,
                p.prepared_at(),
                payload@,
            )
            &&& p.wf()
        },
{
    let now = match current_timestamp_ms() {
        Ok(now) => now,
        Err(e) => return Err(e),
    };
    prepare_private_attestation_at(payload, now)
}

/// Packages signer output without cryptographically verifying it.
///
/// The function rejects empty signature bytes and requires `signed_data` to be
/// the exact challenge-bound message returned by
/// [`PreparedAttestation::signing_message`]. A verifier must still validate the
/// signature and attested public key before trusting the returned envelope.
/// Consuming `PreparedAttestation` makes replay through the safe API a compile
/// error.
pub fn finalize_private_attestation(
    prepared_attestation: PreparedAttestation,
    signed_data: &[u8],
    signature: &[u8],
) -> (envelope: Result<AttestationEnvelope, HteError>)
    ensures
        envelope matches Err(e) ==> e is AttestationStateError,
        envelope matches Err(HteError::AttestationStateError(m)) ==> is_clock_failure_text(m@)
            || exists|now: u64|
            #[trigger] refused_at(
                prepared_attestation.prepared_at(),
                prepared_attestation.message(),
                signed_data@,
                signature@,
                now,
                m@,
            ),
        envelope is Ok ==> exists|now: u64|
            #[trigger] accepted_at(
                prepared_attestation.prepared_at(),
                prepared_attestation.message(),
                signed_data@,
                signature@,
                now,
            ),
        signature@.len() == 0 ==> envelope is Err,
        signed_data@ != prepared_attestation.message() ==> envelope is Err,
        envelope matches Ok(env) ==> {
            &&& env.signed_data@ == signed_data@
            &&& env.signed_data@ == prepared_attestation.message()
            &&& env.signature@ == signature@
            &&& env.challenge == prepared_attestation.challenge_value()
            &&& env.timestamp_ms == prepared_attestation.prepared_at()
            &&& env.signature_verification == SignatureVerification::NotPerformed
        },
{
    let now = match current_timestamp_ms() {
        Ok(now) => now,
        Err(e) => return Err(e),
    };
    let ghost prepared_at = prepared_attestation.prepared_at();
    let ghost message = prepared_attestation.message();
    let envelope = finalize_private_attestation_at(prepared_attestation, signed_data, signature, now);
    proof {
        if let Err(HteError::AttestationStateError(m)) = &envelope {
            assert(refused_at(prepared_at, message, signed_data@, signature@, now, m@));
        }
        if envelope is Ok {
            assert(accepted_at(prepared_at, message, signed_data@, signature@, now));
        }
    }
    envelope
}

/// Finalization accepts exactly the prepared message: within the expiration
/// window and with a non-empty signature, the prepared message is accepted and
/// every other message is refused.
pub proof fn lemma_finalize_accepts_exactly_prepared_message(
    prepared: PreparedAttestation,
    signed_data: Seq<u8>,
    signature: Seq<u8>,
    now: u64,
)
    requires
        signature.len() > 0,
        prepared.prepared_at() <= now <= prepared.prepared_at() + ATTESTATION_EXPIRATION_MS,
    ensures
        finalize_rejection(prepared.prepared_at(), prepared.message(), signed_data, signature, now)
            is None <==> signed_data == prepared.message(),
{
}

/// Outside the expiration window, or with an empty signature, finalization
/// refuses whatever message it is given.
pub proof fn lemma_finalize_refuses_stale_or_unsigned(
    prepared: PreparedAttestation,
    signed_data: Seq<u8>,
    signature: Seq<u8>,
    now: u64,
)
    requires
        signature.len() == 0 || now < prepared.prepared_at() || now
            > prepared.prepared_at() + ATTESTATION_EXPIRATION_MS,
    ensures
        finalize_rejection(prepared.prepared_at(), prepared.message(), signed_data, signature, now)
            is Some,
{
}

/// An accepted envelope of a well-formed prepared attestation carries a
/// message that binds its own challenge and timestamp to some payload.
pub proof fn lemma_accepted_envelope_is_bound(
    prepared: PreparedAttestation,
    signed_data: Seq<u8>,
    signature: Seq<u8>,
    now: u64,
)
    requires
        prepared.wf(),
        finalize_rejection(prepared.prepared_at(), prepared.message(), signed_data, signature, now)
            is None,
    ensures
        signed_data.len() > SIGNING_HEADER_LEN,
        signed_data == signing_message_for(
            prepared.challenge_value()@,
            prepared.prepared_at(),
            signed_data.skip(SIGNING_HEADER_LEN as int),
        ),
{
}

} // verus!
