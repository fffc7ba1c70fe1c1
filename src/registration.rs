//! The registration orchestrator: a proof's verdict gates one OPRF
//! evaluation, and the request ends either done, with the evaluation, or
//! rejected, with a reason.
use crate::hex_text::{hex_decoding, is_hex_text};
use crate::oprf::{evaluation_of, EvaluationError, ServerKeyMaterial, ELEMENT_LEN};
use crate::proof_check::VerifyError;
use vstd::prelude::*;

verus! {

/// Why a registration was rejected.
#[derive(PartialEq, Eq, Structural, Clone, Copy, Debug)]
pub enum RejectReason {
    /// The proof was not accepted.
    InvalidProof,
    /// The verifier's setup failed.
    ConfigurationError,
    /// The blinded input was malformed.
    InvalidInput,
    /// The evaluator failed after the proof was accepted.
    EvaluationFailed,
}

/// How the transport should answer a finished request.
#[derive(PartialEq, Eq, Structural, Clone, Copy, Debug)]
pub enum ResponseClass {
    /// The registration succeeded.
    Success,
    /// The client's request was at fault.
    ClientFault,
    /// The server was at fault.
    ServerFault,
}

/// Where a request stands once the proof has been decided on.
#[derive(PartialEq, Eq, Structural, Clone, Copy, Debug)]
pub enum Gate {
    /// The proof was accepted: evaluate the blinded input.
    Evaluating,
    /// The request ends here, for this reason.
    Rejected(RejectReason),
}

/// The terminal state of a registration request.
#[derive(Clone, Debug)]
pub enum RegistrationOutcome {
    /// Registered: the evaluation element, hex-encoded.
    Done(String),
    /// Rejected, for this reason.
    Rejected(RejectReason),
}

impl RegistrationOutcome {
    /// The outcome, with the evaluation viewed as characters.
    pub open spec fn view_outcome(&self) -> Result<Seq<char>, RejectReason> {
        match self {
            RegistrationOutcome::Done(s) => Ok(s@),
            RegistrationOutcome::Rejected(why) => Err(*why),
        }
    }

    /// How the transport answers this outcome: success, a client fault for a
    /// rejected proof or malformed input, a server fault otherwise.
    pub fn response_class(&self) -> (r: ResponseClass)
        ensures
            r == response_class_of(self.view_outcome()),
    {
        match self {
            RegistrationOutcome::Done(_) => ResponseClass::Success,
            RegistrationOutcome::Rejected(RejectReason::InvalidProof) => ResponseClass::ClientFault,
            RegistrationOutcome::Rejected(RejectReason::InvalidInput) => ResponseClass::ClientFault,
            RegistrationOutcome::Rejected(RejectReason::ConfigurationError) => ResponseClass::ServerFault,
            RegistrationOutcome::Rejected(RejectReason::EvaluationFailed) => ResponseClass::ServerFault,
        }
    }
}

/// How the transport answers an outcome.
pub open spec fn response_class_of(o: Result<Seq<char>, RejectReason>) -> ResponseClass {
    match o {
        Ok(_) => ResponseClass::Success,
        Err(RejectReason::InvalidProof) => ResponseClass::ClientFault,
        Err(RejectReason::InvalidInput) => ResponseClass::ClientFault,
        Err(_) => ResponseClass::ServerFault,
    }
}

/// Where the verifier's answer leads.
pub open spec fn gate_of(verification: Result<(), VerifyError>) -> Gate {
    match verification {
        Ok(()) => Gate::Evaluating,
        Err(VerifyError::ProofRejected) => Gate::Rejected(RejectReason::InvalidProof),
        Err(VerifyError::ConfigurationError) => Gate::Rejected(RejectReason::ConfigurationError),
    }
}

/// The reason for a failed evaluation.
pub open spec fn evaluation_reason(e: EvaluationError) -> RejectReason {
    match e {
        EvaluationError::InvalidInput => RejectReason::InvalidInput,
        EvaluationError::EvaluationFailed => RejectReason::EvaluationFailed,
    }
}

/// The terminal state of a request: rejected where the verifier did not
/// accept; otherwise done with the evaluation, or rejected for its failure.
pub open spec fn registration_of(
    key: Seq<u8>,
    verification: Result<(), VerifyError>,
    blinded_hex: Seq<char>,
) -> Result<Seq<char>, RejectReason> {
    match gate_of(verification) {
        Gate::Rejected(why) => Err(why),
        Gate::Evaluating => match evaluation_of(key, blinded_hex) {
            Ok(s) => Ok(s),
            Err(e) => Err(evaluation_reason(e)),
        },
    }
}

/// The verifying stage: an accepted proof moves on to evaluation; a
/// rejected proof or a failed setup ends the request.
pub fn after_verification(verification: Result<(), VerifyError>) -> (r: Gate)
    ensures
        r == gate_of(verification),
{
    match verification {
        Ok(()) => Gate::Evaluating,
        Err(VerifyError::ProofRejected) => Gate::Rejected(RejectReason::InvalidProof),
        Err(VerifyError::ConfigurationError) => Gate::Rejected(RejectReason::ConfigurationError),
    }
}

/// The evaluating stage: the evaluation, or the reason it failed.
pub fn after_evaluation(evaluation: Result<String, EvaluationError>) -> (r: RegistrationOutcome)
    ensures
        r.view_outcome() == match evaluation {
            Ok(s) => Ok(s@),
            Err(e) => Err(evaluation_reason(e)),
        },
{
    match evaluation {
        Ok(s) => RegistrationOutcome::Done(s),
        Err(EvaluationError::InvalidInput) => RegistrationOutcome::Rejected(RejectReason::InvalidInput),
        Err(EvaluationError::EvaluationFailed) => RegistrationOutcome::Rejected(RejectReason::EvaluationFailed),
    }
}

/// Handles one registration request, given the verifier's answer on its
/// proof and its hex-encoded blinded input. The evaluator runs only when
/// the proof was accepted; a finished registration carries one group
/// element in hex.
pub fn register(
    key: &ServerKeyMaterial,
    verification: Result<(), VerifyError>,
    blinded_hex: &str,
) -> (r: RegistrationOutcome)
    ensures
        r.view_outcome() == registration_of(key@, verification, blinded_hex@),
        r.view_outcome() is Ok ==> is_hex_text(r.view_outcome()->Ok_0)
            && hex_decoding(r.view_outcome()->Ok_0).len() == ELEMENT_LEN,
{
    match after_verification(verification) {
        Gate::Rejected(why) => RegistrationOutcome::Rejected(why),
        Gate::Evaluating => after_evaluation(key.evaluate(blinded_hex)),
    }
}

/// A rejected proof ends the request as an invalid proof, whatever the key
/// and the blinded input: the evaluator has no part in the outcome.
pub proof fn rejected_proof_skips_evaluation(
    key: Seq<u8>,
    other_key: Seq<u8>,
    blinded_hex: Seq<char>,
    other_input: Seq<char>,
)
    ensures
        registration_of(key, Err(VerifyError::ProofRejected), blinded_hex)
            == registration_of(other_key, Err(VerifyError::ProofRejected), other_input),
        registration_of(key, Err(VerifyError::ProofRejected), blinded_hex) is Err,
        registration_of(key, Err(VerifyError::ProofRejected), blinded_hex)->Err_0 == RejectReason::InvalidProof,
{
}

/// An accepted proof with malformed hexadecimal input is rejected as invalid
/// input, not as an invalid proof.
pub proof fn malformed_input_is_not_invalid_proof(key: Seq<u8>, blinded_hex: Seq<char>)
    requires
        !is_hex_text(blinded_hex),
    ensures
        registration_of(key, Ok(()), blinded_hex) is Err,
        registration_of(key, Ok(()), blinded_hex)->Err_0 == RejectReason::InvalidInput,
{
}

/// Requests do not interfere: each outcome is fixed by the shared, unchanging
/// key and that request's own proof verdict and input, so two requests with
/// the same verdict and input end alike, whatever else is handled meanwhile.
pub proof fn requests_independent(
    key: ServerKeyMaterial,
    verification: Result<(), VerifyError>,
    blinded_hex: Seq<char>,
    first: RegistrationOutcome,
    second: RegistrationOutcome,
)
    requires
        first.view_outcome() == registration_of(key@, verification, blinded_hex),
        second.view_outcome() == registration_of(key@, verification, blinded_hex),
    ensures
        first.view_outcome() == second.view_outcome(),
{
}

} // verus!
