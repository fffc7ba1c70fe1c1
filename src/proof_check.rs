//! The proof verifier's decisions: the one-time, memoized setup of the
//! circuit's parameters and verification key, and the verdict on a proof.
//! The proving system's own work (establishing parameters, deriving the key,
//! checking a proof) is performed by the caller, which reports each outcome.
use vstd::prelude::*;

verus! {

/// Why a proof was not accepted.
#[derive(PartialEq, Eq, Structural, Clone, Copy, Debug)]
pub enum VerifyError {
    /// Setting up the circuit's parameters or its verification key failed (an operator fault).
    ConfigurationError,
    /// The cryptographic check did not accept the proof, or the proof did not parse (a client fault).
    ProofRejected,
}

/// What the verifier needs done next before it can decide on a proof.
#[derive(PartialEq, Eq, Structural, Clone, Copy, Debug)]
pub enum VerifierStep {
    /// Establish the setup parameters for the circuit.
    EstablishParameters,
    /// Derive the verification key from the circuit and its parameters.
    DeriveKey,
    /// Check the proof against the verification key.
    CheckProof,
}

/// The verdict on a proof, given what the check reported: `Some(accepted)`
/// when it ran, `None` when the proof could not be parsed or checked.
pub open spec fn verdict_of(check: Option<bool>) -> Result<(), VerifyError> {
    match check {
        Some(true) => Ok(()),
        _ => Err(VerifyError::ProofRejected),
    }
}

/// Turns the outcome of the cryptographic check into the verifier's answer:
/// only an accepting check accepts.
pub fn proof_verdict(check: Option<bool>) -> (r: Result<(), VerifyError>)
    ensures
        r == verdict_of(check),
{
    match check {
        Some(true) => Ok(()),
        _ => Err(VerifyError::ProofRejected),
    }
}

/// A verifier for one fixed circuit, with its setup memoized: parameters
/// are established at most once, and the key derived at most once, after them.
pub struct ProofVerifier {
    circuit: String,
    parameters_established: bool,
    verification_key: Option<Vec<u8>>,
}

impl ProofVerifier {
    #[verifier::type_invariant]
    closed spec fn inv(&self) -> bool {
        self.verification_key is Some ==> self.parameters_established
    }

    /// The circuit's compiled bytecode.
    pub closed spec fn circuit_spec(&self) -> Seq<char> {
        self.circuit@
    }

    /// Whether the setup parameters have been established.
    pub closed spec fn has_parameters(&self) -> bool {
        self.parameters_established
    }

    /// The verification key, once derived.
    pub closed spec fn key_spec(&self) -> Option<Seq<u8>> {
        match self.verification_key {
            Some(k) => Some(k@),
            None => None,
        }
    }

    /// A verifier for the circuit with the given bytecode, with no setup done yet.
    pub fn new(circuit: String) -> (r: ProofVerifier)
        ensures
            r.circuit_spec() == circuit@,
            !r.has_parameters(),
            r.key_spec() is None,
    {
        ProofVerifier { circuit, parameters_established: false, verification_key: None }
    }

    /// The circuit's compiled bytecode.
    pub fn circuit(&self) -> (r: &String)
        ensures
            r@ == self.circuit_spec(),
    {
        &self.circuit
    }

    /// The verification key, once derived.
    pub fn verification_key(&self) -> (r: Option<&Vec<u8>>)
        ensures
            r is Some <==> self.key_spec() is Some,
            r is Some ==> self.key_spec()->Some_0 == r->Some_0@,
    {
        match &self.verification_key {
            Some(k) => Some(k),
            None => None,
        }
    }

    /// What must be done next: parameters first, then the key, then the check itself.
    pub fn next_step(&self) -> (r: VerifierStep)
        ensures
            !self.has_parameters() ==> r == VerifierStep::EstablishParameters,
            self.has_parameters() && self.key_spec() is None ==> r == VerifierStep::DeriveKey,
            self.key_spec() is Some ==> r == VerifierStep::CheckProof,
    {
        proof {
            use_type_invariant(self);
        }
        if !self.parameters_established {
            VerifierStep::EstablishParameters
        } else if self.verification_key.is_none() {
            VerifierStep::DeriveKey
        } else {
            VerifierStep::CheckProof
        }
    }

    /// Records whether establishing the setup parameters succeeded. Success
    /// is remembered; a failure is a configuration error and changes nothing.
    pub fn record_parameters(&mut self, established: bool) -> (r: Result<(), VerifyError>)
        ensures
            final(self).circuit_spec() == old(self).circuit_spec(),
            final(self).key_spec() == old(self).key_spec(),
            final(self).has_parameters() == (old(self).has_parameters() || established),
            r is Ok <==> established,
            r is Err ==> r->Err_0 == VerifyError::ConfigurationError,
    {
        proof {
            use_type_invariant(&*self);
        }
        if established {
            self.parameters_established = true;
            Ok(())
        } else {
            Err(VerifyError::ConfigurationError)
        }
    }

    /// Records the outcome of deriving the verification key: `Some(key)` when
    /// it was derived. A key is taken only after the parameters and only once;
    /// a later one leaves the first in place. A missing key, or one offered
    /// before the parameters, is a configuration error and changes nothing.
    pub fn record_key(&mut self, key: Option<Vec<u8>>) -> (r: Result<(), VerifyError>)
        ensures
            final(self).circuit_spec() == old(self).circuit_spec(),
            final(self).has_parameters() == old(self).has_parameters(),
            r is Ok <==> (old(self).has_parameters() && (old(self).key_spec() is Some || key is Some)),
            r is Err ==> r->Err_0 == VerifyError::ConfigurationError,
            r is Ok && old(self).key_spec() is None ==> final(self).key_spec() == Some(key->Some_0@),
            !(r is Ok && old(self).key_spec() is None) ==> final(self).key_spec() == old(self).key_spec(),
    {
        proof {
            use_type_invariant(&*self);
        }
        if !self.parameters_established {
            return Err(VerifyError::ConfigurationError);
        }
        if self.verification_key.is_some() {
            return Ok(());
        }
        match key {
            Some(k) => {
                self.verification_key = Some(k);
                Ok(())
            },
            None => Err(VerifyError::ConfigurationError),
        }
    }

    /// The verifier's answer on a proof, given what the check reported. With
    /// no verification key yet the setup is incomplete: a configuration error.
    pub fn conclude(&self, check: Option<bool>) -> (r: Result<(), VerifyError>)
        ensures
            self.key_spec() is None ==> (r is Err && r->Err_0 == VerifyError::ConfigurationError),
            self.key_spec() is Some ==> r == verdict_of(check),
    {
        if self.verification_key.is_none() {
            Err(VerifyError::ConfigurationError)
        } else {
            proof_verdict(check)
        }
    }
}

} // verus!
