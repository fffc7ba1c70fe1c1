//! The OPRF evaluator: server key material drawn once, and a deterministic
//! evaluation of hex-encoded blinded elements under it.
use crate::hex_text::{decode_hex, encode_hex, hex_decoding, hex_encoding, hex_round_trip, is_hex_text};
use rand::RngCore;
use vstd::prelude::*;
use voprf::{BlindedElement, OprfServer, Ristretto255};

verus! {

/// Length in bytes of the secret seed that the server key is derived from.
pub const SEED_LEN: usize = 32;

/// Length in bytes of an encoded group element of the cipher suite.
pub const ELEMENT_LEN: usize = 32;

/// Whether a server key can be derived from `seed` (with empty info).
pub uninterp spec fn key_derivable(seed: Seq<u8>) -> bool;

/// Whether `b` decodes as a blinded element: a valid group element other than the identity.
pub uninterp spec fn is_blinded_element(b: Seq<u8>) -> bool;

/// The encoded evaluation element that the server key derived from `seed`
/// makes of the blinded element `b`.
pub uninterp spec fn oprf_evaluation(seed: Seq<u8>, b: Seq<u8>) -> Seq<u8>;

/// Why the underlying evaluation did not produce an element.
#[derive(PartialEq, Eq, Structural, Clone, Copy, Debug)]
pub enum OprfFailure {
    /// The bytes are not an encoding of a blinded element.
    Malformed,
    /// The server key could not be derived.
    Internal,
}

/// Why an evaluation request failed.
#[derive(PartialEq, Eq, Structural, Clone, Copy, Debug)]
pub enum EvaluationError {
    /// The blinded input is not hexadecimal, or not a group element (a client fault).
    InvalidInput,
    /// The evaluator failed on a well-formed input (a server fault).
    EvaluationFailed,
}

/// Relies on rand's OsRng (`try_fill_bytes`): fills `len` bytes from the
/// operating system's secure random source, or reports that the source is
/// unavailable.
#[verifier::external_body]
fn random_bytes(len: usize) -> (r: Option<Vec<u8>>)
    ensures
        r is Some ==> r->Some_0@.len() == len,
{
    let mut bytes = vec![0u8; len];
    rand::rngs::OsRng.try_fill_bytes(&mut bytes).ok().map(|_| bytes)
}

/// Relies on voprf's `OprfServer::new_from_seed` (Ristretto255, empty info):
/// whether it derives a key from `seed`.
#[verifier::external_body]
fn can_derive_key(seed: &[u8]) -> (r: bool)
    ensures
        r == key_derivable(seed@),
{
    OprfServer::<Ristretto255>::new_from_seed(seed, &[]).is_ok()
}

/// Relies on voprf (Ristretto255): `BlindedElement::deserialize` decodes the
/// element, `OprfServer::new_from_seed` derives the key, `blind_evaluate`
/// applies it, and `serialize` encodes the result in one element's length.
#[verifier::external_body]
fn blind_evaluate(seed: &[u8], blinded: &[u8]) -> (r: Result<Vec<u8>, OprfFailure>)
    ensures
        !is_blinded_element(blinded@) ==> (r is Err && r->Err_0 == OprfFailure::Malformed),
        is_blinded_element(blinded@) && !key_derivable(seed@) ==> (r is Err && r->Err_0 == OprfFailure::Internal),
        is_blinded_element(blinded@) && key_derivable(seed@) ==> r is Ok,
        r is Ok ==> r->Ok_0@ == oprf_evaluation(seed@, blinded@) && r->Ok_0@.len() == ELEMENT_LEN,
{
    let element = match BlindedElement::<Ristretto255>::deserialize(blinded) {
        Ok(e) => e,
        Err(_) => return Err(OprfFailure::Malformed),
    };
    match OprfServer::<Ristretto255>::new_from_seed(seed, &[]) {
        Ok(server) => Ok(server.blind_evaluate(&element).serialize().to_vec()),
        Err(_) => Err(OprfFailure::Internal),
    }
}

/// The outcome of an evaluation request, with the text viewed as characters.
pub open spec fn outcome_view(r: Result<String, EvaluationError>) -> Result<Seq<char>, EvaluationError> {
    match r {
        Ok(s) => Ok(s@),
        Err(e) => Err(e),
    }
}

/// What evaluating the hex text `s` under the key derived from `seed` gives:
/// malformed hex or a non-element is invalid input, anything else is the
/// hex-encoded evaluation element.
pub open spec fn evaluation_of(seed: Seq<u8>, s: Seq<char>) -> Result<Seq<char>, EvaluationError> {
    if !is_hex_text(s) || !is_blinded_element(hex_decoding(s)) {
        Err(EvaluationError::InvalidInput)
    } else {
        Ok(hex_encoding(oprf_evaluation(seed, hex_decoding(s))))
    }
}

/// What an evaluation request answers, given what the underlying evaluation gave.
pub open spec fn response_of(outcome: Result<Seq<u8>, OprfFailure>) -> Result<Seq<char>, EvaluationError> {
    match outcome {
        Ok(b) => Ok(hex_encoding(b)),
        Err(OprfFailure::Malformed) => Err(EvaluationError::InvalidInput),
        Err(OprfFailure::Internal) => Err(EvaluationError::EvaluationFailed),
    }
}

/// Turns the underlying evaluation's outcome into the request's answer: the
/// element in lowercase hex, or the error that the failure stands for.
pub fn evaluation_response(outcome: Result<Vec<u8>, OprfFailure>) -> (r: Result<String, EvaluationError>)
    ensures
        outcome_view(r) == response_of(match outcome { Ok(b) => Ok(b@), Err(f) => Err(f) }),
{
    match outcome {
        Ok(b) => Ok(encode_hex(b.as_slice())),
        Err(OprfFailure::Malformed) => Err(EvaluationError::InvalidInput),
        Err(OprfFailure::Internal) => Err(EvaluationError::EvaluationFailed),
    }
}

/// The server's secret key material: a seed from which a usable OPRF key is derived.
/// It is fixed once made, and never leaves the evaluator.
pub struct ServerKeyMaterial {
    seed: Vec<u8>,
}

impl View for ServerKeyMaterial {
    type V = Seq<u8>;

    closed spec fn view(&self) -> Seq<u8> {
        self.seed@
    }
}

impl ServerKeyMaterial {
    #[verifier::type_invariant]
    closed spec fn inv(&self) -> bool {
        self.seed@.len() == SEED_LEN && key_derivable(self.seed@)
    }

    /// Whether `seed` is usable as key material: the right length, and a key derives from it.
    pub open spec fn usable_seed(seed: Seq<u8>) -> bool {
        seed.len() == SEED_LEN && key_derivable(seed)
    }

    /// Key material from a given seed, if a key derives from it.
    pub fn from_seed(seed: Vec<u8>) -> (r: Option<ServerKeyMaterial>)
        ensures
            r is Some <==> Self::usable_seed(seed@),
            r is Some ==> r->Some_0@ == seed@,
    {
        if seed.len() == SEED_LEN && can_derive_key(seed.as_slice()) {
            Some(ServerKeyMaterial { seed })
        } else {
            None
        }
    }

    /// Fresh key material from the operating system's secure random source;
    /// `None` when the source is unavailable or the drawn seed is unusable.
    pub fn initialize() -> (r: Option<ServerKeyMaterial>)
        ensures
            r is Some ==> Self::usable_seed(r->Some_0@),
    {
        match random_bytes(SEED_LEN) {
            Some(seed) => Self::from_seed(seed),
            None => None,
        }
    }

    /// Evaluates the hex-encoded blinded element `blinded_hex` under this key.
    /// Malformed hex is rejected before any key material is used.
    pub fn evaluate(&self, blinded_hex: &str) -> (r: Result<String, EvaluationError>)
        ensures
            Self::usable_seed(self@),
            outcome_view(r) == evaluation_of(self@, blinded_hex@),
            r is Ok ==> is_hex_text(r->Ok_0@) && hex_decoding(r->Ok_0@).len() == ELEMENT_LEN,
    {
        proof {
            use_type_invariant(self);
        }
        match decode_hex(blinded_hex) {
            None => Err(EvaluationError::InvalidInput),
            Some(bytes) => {
                let outcome = blind_evaluate(self.seed.as_slice(), bytes.as_slice());
                proof {
                    if outcome is Ok {
                        hex_round_trip(outcome->Ok_0@);
                    }
                }
                evaluation_response(outcome)
            },
        }
    }
}

/// Evaluation is deterministic: under one key, the same blinded input always
/// gives the same answer.
pub proof fn evaluation_deterministic(
    key: ServerKeyMaterial,
    blinded_hex: Seq<char>,
    first: Result<String, EvaluationError>,
    second: Result<String, EvaluationError>,
)
    requires
        outcome_view(first) == evaluation_of(key@, blinded_hex),
        outcome_view(second) == evaluation_of(key@, blinded_hex),
    ensures
        outcome_view(first) == outcome_view(second),
{
}

/// Malformed hexadecimal input is always invalid input, whatever the key.
pub proof fn malformed_hex_is_invalid_input(key: ServerKeyMaterial, blinded_hex: Seq<char>)
    requires
        !is_hex_text(blinded_hex),
    ensures
        evaluation_of(key@, blinded_hex) is Err,
        evaluation_of(key@, blinded_hex)->Err_0 == EvaluationError::InvalidInput,
{
}

} // verus!
