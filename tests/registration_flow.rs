use rand::rngs::OsRng;
use registration::oprf::ServerKeyMaterial;
use registration::proof_check::VerifyError;
use registration::registration::{
    after_evaluation, after_verification, register, Gate, RegistrationOutcome, RejectReason,
    ResponseClass,
};
use registration::oprf::EvaluationError;
use voprf::{OprfClient, Ristretto255};

fn key() -> ServerKeyMaterial {
    ServerKeyMaterial::from_seed(vec![42u8; 32]).unwrap()
}

fn blinded(input: &[u8]) -> String {
    let blind = OprfClient::<Ristretto255>::blind(input, &mut OsRng).unwrap();
    hex::encode(blind.message.serialize())
}

fn rejection(o: &RegistrationOutcome) -> Option<RejectReason> {
    match o {
        RegistrationOutcome::Rejected(why) => Some(*why),
        RegistrationOutcome::Done(_) => None,
    }
}

#[test]
fn accepted_proof_and_valid_input_is_done() {
    let k = key();
    let input = blinded(b"carol");
    let outcome = register(&k, Ok(()), &input);
    match &outcome {
        RegistrationOutcome::Done(s) => {
            let bytes = hex::decode(s).unwrap();
            assert_eq!(bytes.len(), 32);
            assert_eq!(Ok(s.clone()), k.evaluate(&input));
        }
        RegistrationOutcome::Rejected(why) => panic!("rejected: {:?}", why),
    }
    assert_eq!(outcome.response_class(), ResponseClass::Success);
}

#[test]
fn rejected_proof_is_invalid_proof() {
    let k = key();
    let outcome = register(&k, Err(VerifyError::ProofRejected), &blinded(b"dave"));
    assert_eq!(rejection(&outcome), Some(RejectReason::InvalidProof));
    assert_eq!(outcome.response_class(), ResponseClass::ClientFault);
    // The input is never looked at: even a malformed one gives the same answer.
    let outcome = register(&k, Err(VerifyError::ProofRejected), "not hex");
    assert_eq!(rejection(&outcome), Some(RejectReason::InvalidProof));
}

#[test]
fn malformed_input_after_accepted_proof_is_invalid_input() {
    let k = key();
    let outcome = register(&k, Ok(()), "not hex at all");
    assert_eq!(rejection(&outcome), Some(RejectReason::InvalidInput));
    assert_eq!(outcome.response_class(), ResponseClass::ClientFault);
    let outcome = register(&k, Ok(()), &"00".repeat(32));
    assert_eq!(rejection(&outcome), Some(RejectReason::InvalidInput));
}

#[test]
fn failed_setup_is_configuration_error() {
    let outcome = register(&key(), Err(VerifyError::ConfigurationError), &blinded(b"erin"));
    assert_eq!(rejection(&outcome), Some(RejectReason::ConfigurationError));
    assert_eq!(outcome.response_class(), ResponseClass::ServerFault);
}

#[test]
fn stages_map_outcomes() {
    assert_eq!(after_verification(Ok(())), Gate::Evaluating);
    assert_eq!(after_verification(Err(VerifyError::ProofRejected)), Gate::Rejected(RejectReason::InvalidProof));
    assert_eq!(
        after_verification(Err(VerifyError::ConfigurationError)),
        Gate::Rejected(RejectReason::ConfigurationError)
    );
    let failed = after_evaluation(Err(EvaluationError::EvaluationFailed));
    assert_eq!(rejection(&failed), Some(RejectReason::EvaluationFailed));
    assert_eq!(failed.response_class(), ResponseClass::ServerFault);
    assert!(matches!(after_evaluation(Ok("ab".to_string())), RegistrationOutcome::Done(s) if s == "ab"));
}

#[test]
fn interleaved_requests_do_not_interfere() {
    let k = key();
    let inputs: Vec<String> = (0u8..6).map(|i| blinded(&[b'u', i])).collect();
    let verdicts = [Ok(()), Err(VerifyError::ProofRejected), Ok(()), Err(VerifyError::ConfigurationError)];
    let alone: Vec<Vec<Option<RejectReason>>> = verdicts
        .iter()
        .map(|v| inputs.iter().map(|i| rejection(&register(&k, *v, i))).collect())
        .collect();
    let mut interleaved: Vec<Vec<Option<RejectReason>>> = vec![Vec::new(); verdicts.len()];
    let mut answers: Vec<Vec<String>> = vec![Vec::new(); verdicts.len()];
    for i in inputs.iter().rev() {
        for (n, v) in verdicts.iter().enumerate().rev() {
            let o = register(&k, *v, i);
            if let RegistrationOutcome::Done(s) = &o {
                answers[n].push(s.clone());
            }
            interleaved[n].insert(0, rejection(&o));
        }
    }
    assert_eq!(alone, interleaved);
    for n in [0usize, 2] {
        let expected: Vec<String> = inputs.iter().rev().map(|i| k.evaluate(i).unwrap()).collect();
        assert_eq!(answers[n], expected);
    }
    assert!(answers[1].is_empty() && answers[3].is_empty());
}
