//! Registry of explicitly supplied receipt verifiers.
use crate::HteError;
use vstd::prelude::*;
use vstd::string::StrSliceExecFns;

verus! {

/// A receipt verifier supplied by the embedding application.
pub trait ReceiptVerifierPlugin: Send + Sync {
    fn verify_receipt(&self, receipt_proof: &[u8], public_inputs: &[u8]) -> Result<(), HteError>;
}

/// Whether `c` has the Unicode `White_Space` property: tab, line feed,
/// vertical tab, form feed, carriage return, space, next line, no-break space,
/// ogham space mark, the spaces U+2000 to U+200A, line and paragraph
/// separators, narrow no-break space, medium mathematical space and
/// ideographic space.
pub open spec fn white_space(c: char) -> bool {
    let v = c as u32;
    ||| 0x09 <= v <= 0x0d
    ||| v == 0x20
    ||| v == 0x85
    ||| v == 0xa0
    ||| v == 0x1680
    ||| 0x2000 <= v <= 0x200a
    ||| v == 0x2028
    ||| v == 0x2029
    ||| v == 0x202f
    ||| v == 0x205f
    ||| v == 0x3000
}

/// Whether `c` has the Unicode `White_Space` property, the property that
/// `char::is_whitespace` and `str::trim` go by.
fn char_is_whitespace(c: char) -> (b: bool)
    ensures
        b == white_space(c),
{
    let v = c as u32;
    (0x09 <= v && v <= 0x0d) || v == 0x20 || v == 0x85 || v == 0xa0 || v == 0x1680 || (0x2000
        <= v && v <= 0x200a) || v == 0x2028 || v == 0x2029 || v == 0x202f || v == 0x205f || v
        == 0x3000
}

/// An encoding name is blank when nothing but white space is left after trimming it.
pub open spec fn is_blank(name: Seq<char>) -> bool {
    forall|i: int| 0 <= i < name.len() ==> #[trigger] white_space(name[i])
}

/// No visible ASCII character (letters, digits, punctuation), no Latin-1
/// letter, no control character other than tab to carriage return and next
/// line, and nothing beyond the ideographic space is white space.
pub proof fn lemma_printable_characters_are_not_white_space(c: char)
    requires
        0x21 <= c as u32 <= 0x7e || 0xc0 <= c as u32 <= 0xff || c as u32 <= 0x08 || 0x0e
            <= c as u32 <= 0x1f || c as u32 > 0x3000,
    ensures
        !white_space(c),
{
}

/// Space, tab, line feed, vertical tab, form feed, carriage return, no-break
/// space and ideographic space are white space.
pub proof fn lemma_common_spaces_are_white_space(c: char)
    requires
        c == ' ' || c == '\t' || c == '\n' || c == '\r' || c as u32 == 0x0b || c as u32 == 0x0c
            || c as u32 == 0xa0 || c as u32 == 0x3000,
    ensures
        white_space(c),
{
}

/// An encoding that holds any visible ASCII character (a letter, a digit or a
/// punctuation mark) is never blank, so registration never refuses it as
/// empty; an encoding made only of spaces and tabs is always blank.
pub proof fn lemma_blank_encodings(name: Seq<char>, i: int)
    ensures
        0 <= i < name.len() && 0x21 <= name[i] as u32 <= 0x7e ==> !is_blank(name),
        (forall|j: int| 0 <= j < name.len() ==> #[trigger] name[j] == ' ' || name[j] == '\t')
            ==> is_blank(name),
{
    if 0 <= i < name.len() && 0x21 <= name[i] as u32 <= 0x7e {
        lemma_printable_characters_are_not_white_space(name[i]);
    }
    if forall|j: int| 0 <= j < name.len() ==> #[trigger] name[j] == ' ' || name[j] == '\t' {
        assert forall|j: int| 0 <= j < name.len() implies #[trigger] white_space(name[j]) by {
            lemma_common_spaces_are_white_space(name[j]);
        }
    }
}

fn blank(name: &str) -> (b: bool)
    ensures
        b == is_blank(name@),
{
    let n = name.unicode_len();
    let mut i: usize = 0;
    while i < n
        invariant
            n == name@.len(),
            i <= n,
            forall|j: int| 0 <= j < i ==> #[trigger] white_space(name@[j]),
        decreases n - i,
    {
        let c = name.get_char(i);
        if !char_is_whitespace(c) {
            return false;
        }
        i = i + 1;
    }
    true
}

enum Registration<V: ?Sized> {
    Empty,
    Entry(String, Box<V>, Box<Registration<V>>),
}

impl<V: ?Sized> Registration<V> {
    /// The registered encodings, oldest first.
    spec fn keys(&self) -> Seq<Seq<char>>
        decreases self,
    {
        match self {
            Registration::Empty => Seq::empty(),
            Registration::Entry(k, _, rest) => rest.keys().push(k@),
        }
    }

    /// The verifier registered most recently under `key`.
    spec fn lookup(&self, key: Seq<char>) -> Option<&V>
        decreases self,
    {
        match self {
            Registration::Empty => None,
            Registration::Entry(k, v, rest) => if k@ == key {
                Some(&**v)
            } else {
                rest.lookup(key)
            },
        }
    }

    proof fn lemma_lookup_registered(&self, key: Seq<char>)
        ensures
            self.lookup(key) is Some <==> self.keys().contains(key),
        decreases self,
    {
        match self {
            Registration::Empty => {},
            Registration::Entry(k, v, rest) => {
                rest.lemma_lookup_registered(key);
                let rk = rest.keys();
                assert(self.keys() == rk.push(k@));
                if rk.contains(key) {
                    let j = choose|j: int| 0 <= j < rk.len() && rk[j] == key;
                    assert(self.keys()[j] == key);
                }
                if self.keys().contains(key) && k@ != key {
                    let j = choose|j: int| 0 <= j < self.keys().len() && self.keys()[j] == key;
                    assert(j < rk.len());
                    assert(rk[j] == key);
                }
                if k@ == key {
                    assert(self.keys()[self.keys().len() - 1] == key);
                }
            },
        }
    }

    fn find(&self, probe: &String) -> (found: Option<&V>)
        ensures
            found is Some <==> self.keys().contains(probe@),
            found == self.lookup(probe@),
        decreases self,
    {
        proof {
            self.lemma_lookup_registered(probe@);
        }
        match self {
            Registration::Empty => None,
            Registration::Entry(k, v, rest) => {
                if k.eq(probe) {
                    Some(&**v)
                } else {
                    rest.find(probe)
                }
            },
        }
    }
}

/// Registry of explicitly supplied verifier implementations.
///
/// The registry does not install dummy verifiers: an unknown encoding fails
/// closed by returning `None`. Each encoding has at most one verifier.
pub struct VerifierRegistry<V: ?Sized + ReceiptVerifierPlugin = dyn ReceiptVerifierPlugin> {
    registrations: Registration<V>,
}

impl<V: ?Sized + ReceiptVerifierPlugin> VerifierRegistry<V> {
    #[verifier::type_invariant]
    spec fn unique_encodings(self) -> bool {
        self.registrations.keys().no_duplicates()
    }

    /// The encodings that have a verifier, in the order they were registered.
    pub closed spec fn encodings(&self) -> Seq<Seq<char>> {
        self.registrations.keys()
    }

    /// The verifier that dispatching `proof_encoding` reaches, if any.
    pub closed spec fn verifier_for(&self, proof_encoding: Seq<char>) -> Option<&V> {
        self.registrations.lookup(proof_encoding)
    }

    /// Registers `verifier` for `proof_encoding`, refusing a blank encoding and
    /// an encoding that already has a verifier.
    pub fn register(&mut self, proof_encoding: &str, verifier: Box<V>) -> (outcome: Result<
        (),
        HteError,
    >)
        ensures
            is_blank(proof_encoding@) ==> (outcome matches Err(HteError::InvalidProof(m)) && m@
                == "proof encoding must not be empty"@),
            !is_blank(proof_encoding@) && old(self).encodings().contains(proof_encoding@) ==> (
            outcome matches Err(HteError::InvalidProof(m)) && m@ == "verifier already registered for "@
                + proof_encoding@),
            outcome is Err ==> final(self).encodings() == old(self).encodings(),
            outcome is Err ==> forall|e: Seq<char>|
                #[trigger] final(self).verifier_for(e) == old(self).verifier_for(e),
            !is_blank(proof_encoding@) && !old(self).encodings().contains(proof_encoding@) ==> (
            outcome is Ok && final(self).encodings() == old(self).encodings().push(proof_encoding@)),
            outcome is Ok ==> final(self).verifier_for(proof_encoding@) == Some(&*verifier),
            forall|other: Seq<char>|
                other != proof_encoding@ ==> #[trigger] final(self).verifier_for(other) == old(
                    self,
                ).verifier_for(other),
            final(self).encodings().no_duplicates(),
    {
        proof {
            use_type_invariant(&*self);
        }
        if blank(proof_encoding) {
            return Err(HteError::InvalidProof(String::from_str("proof encoding must not be empty")));
        }
        let key = proof_encoding.to_owned();
        if self.registrations.find(&key).is_some() {
            let mut text = String::from_str("verifier already registered for ");
            text.append(proof_encoding);
            return Err(HteError::InvalidProof(text));
        }
        let mut previous = Registration::Empty;
        std::mem::swap(&mut previous, &mut self.registrations);
        self.registrations = Registration::Entry(key, verifier, Box::new(previous));
        Ok(())
    }

    /// The verifier registered for `proof_encoding`, if any.
    pub fn get_verifier(&self, proof_encoding: &str) -> (verifier: Option<&V>)
        ensures
            verifier is Some <==> self.encodings().contains(proof_encoding@),
            verifier == self.verifier_for(proof_encoding@),
            self.encodings().no_duplicates(),
    {
        proof {
            use_type_invariant(self);
        }
        let probe = proof_encoding.to_owned();
        self.registrations.find(&probe)
    }
}

/// In every registry, dispatch reaches a verifier for exactly the encodings
/// that were registered: unknown encodings fail closed.
pub proof fn lemma_dispatch_matches_encodings<V: ?Sized + ReceiptVerifierPlugin>(
    registry: &VerifierRegistry<V>,
    proof_encoding: Seq<char>,
)
    ensures
        registry.verifier_for(proof_encoding) is Some <==> registry.encodings().contains(
            proof_encoding,
        ),
{
    registry.registrations.lemma_lookup_registered(proof_encoding);
}

impl VerifierRegistry {
    pub fn new() -> (registry: VerifierRegistry)
        ensures
            registry.encodings() == Seq::<Seq<char>>::empty(),
            forall|e: Seq<char>| #[trigger] registry.verifier_for(e) is None,
    {
        VerifierRegistry { registrations: Registration::Empty }
    }
}

impl Default for VerifierRegistry {
    fn default() -> (registry: VerifierRegistry)
        ensures
            registry.encodings() == Seq::<Seq<char>>::empty(),
            forall|e: Seq<char>| #[trigger] registry.verifier_for(e) is None,
    {
        VerifierRegistry::new()
    }
}

#[derive(Debug, Clone, PartialEq, Eq)]
pub enum VerificationOutcome {
    Success,
    Failure(String),
}

/// Noir proof backend over a native Barretenberg verifier.
///
/// The native verifier is supplied by the embedding application, which must
/// link and validate its Barretenberg implementation; this type holds the
/// verification key and makes the decisions around the native call.
pub struct NoirProofBackend {
    verification_key: Vec<u8>,
}

impl NoirProofBackend {
    /// The verification key the backend was made with.
    pub closed spec fn key(&self) -> Vec<u8> {
        self.verification_key
    }

    pub fn new(verification_key: Vec<u8>) -> (backend: Result<NoirProofBackend, HteError>)
        ensures
            verification_key@.len() == 0 ==> (backend matches Err(HteError::InvalidProof(m)) && m@
                == "verification key must not be empty"@),
            verification_key@.len() > 0 ==> (backend matches Ok(b) && b.key() == verification_key),
    {
        if verification_key.len() == 0 {
            return Err(HteError::InvalidProof(String::from_str("verification key must not be empty")));
        }
        Ok(NoirProofBackend { verification_key })
    }

    /// Verifies a proof with `native_verify`, the native Barretenberg check,
    /// which is handed the verification key, the proof and the public inputs.
    /// An empty proof is refused without calling it.
    pub fn verify_proof<F: Fn(&Vec<u8>, &[u8], &[u8]) -> bool>(
        &self,
        proof_buffer: &[u8],
        public_inputs: &[u8],
        native_verify: F,
    ) -> (outcome: Result<(), HteError>)
        requires
            proof_buffer@.len() > 0 ==> call_requires(
                native_verify,
                (&self.key(), proof_buffer, public_inputs),
            ),
        ensures
            proof_buffer@.len() == 0 ==> (outcome matches Err(HteError::InvalidProof(m)) && m@
                == "proof must not be empty"@),
            outcome is Ok ==> proof_buffer@.len() > 0 && call_ensures(
                native_verify,
                (&self.key(), proof_buffer, public_inputs),
                true,
            ),
            proof_buffer@.len() > 0 && outcome is Err ==> (outcome matches Err(
                HteError::VerificationFailed(m),
            ) && m@ == "Barretenberg rejected the Noir proof"@ && call_ensures(
                native_verify,
                (&self.key(), proof_buffer, public_inputs),
                false,
            )),
    {
        if proof_buffer.len() == 0 {
            return Err(HteError::InvalidProof(String::from_str("proof must not be empty")));
        }
        let verified = native_verify(&self.verification_key, proof_buffer, public_inputs);
        if verified {
            Ok(())
        } else {
            Err(HteError::VerificationFailed(String::from_str("Barretenberg rejected the Noir proof")))
        }
    }
}

} // verus!
