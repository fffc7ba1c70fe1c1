use rand::rngs::OsRng;
use registration::oprf::{evaluation_response, EvaluationError, OprfFailure, ServerKeyMaterial};
use voprf::{EvaluationElement, OprfClient, OprfServer, Ristretto255};

fn seed(fill: u8) -> Vec<u8> {
    vec![fill; 32]
}

fn key(fill: u8) -> ServerKeyMaterial {
    ServerKeyMaterial::from_seed(seed(fill)).expect("a 32-byte seed derives a key")
}

fn blinded_for(input: &[u8]) -> (OprfClient<Ristretto255>, String) {
    let blind = OprfClient::<Ristretto255>::blind(input, &mut OsRng).unwrap();
    (blind.state, hex::encode(blind.message.serialize()))
}

#[test]
fn response_encodes_element_as_lowercase_hex() {
    let r = evaluation_response(Ok(vec![0xab, 0x01, 0xff, 0x00]));
    assert_eq!(r, Ok("ab01ff00".to_string()));
}

#[test]
fn response_maps_failures() {
    assert_eq!(evaluation_response(Err(OprfFailure::Malformed)), Err(EvaluationError::InvalidInput));
    assert_eq!(evaluation_response(Err(OprfFailure::Internal)), Err(EvaluationError::EvaluationFailed));
}

#[test]
fn seed_of_wrong_length_is_refused() {
    assert!(ServerKeyMaterial::from_seed(vec![7u8; 31]).is_none());
    assert!(ServerKeyMaterial::from_seed(vec![7u8; 33]).is_none());
    assert!(ServerKeyMaterial::from_seed(Vec::new()).is_none());
    assert!(ServerKeyMaterial::from_seed(seed(7)).is_some());
}

#[test]
fn initialize_draws_usable_key() {
    let k = ServerKeyMaterial::initialize().expect("the system random source is available");
    let (_, blinded) = blinded_for(b"identity");
    assert!(k.evaluate(&blinded).is_ok());
}

#[test]
fn malformed_hex_is_invalid_input() {
    let k = key(1);
    for bad in ["abc", "zz", "0g", "é1", "12 4", "0x12", "ab\n"] {
        assert_eq!(k.evaluate(bad), Err(EvaluationError::InvalidInput), "input {:?}", bad);
    }
}

#[test]
fn non_element_is_invalid_input() {
    let k = key(1);
    // The identity element is refused, as are short and empty encodings.
    assert_eq!(k.evaluate(&"00".repeat(32)), Err(EvaluationError::InvalidInput));
    assert_eq!(k.evaluate("abcd"), Err(EvaluationError::InvalidInput));
    assert_eq!(k.evaluate(""), Err(EvaluationError::InvalidInput));
    assert_eq!(k.evaluate(&"ff".repeat(32)), Err(EvaluationError::InvalidInput));
}

#[test]
fn evaluation_is_deterministic() {
    let k = key(3);
    let (_, blinded) = blinded_for(b"alice");
    let first = k.evaluate(&blinded).unwrap();
    let second = k.evaluate(&blinded).unwrap();
    assert_eq!(first, second);
    assert_eq!(first.len(), 64);
    assert_ne!(first, blinded);
}

#[test]
fn different_keys_evaluate_differently() {
    let (_, blinded) = blinded_for(b"alice");
    assert_ne!(key(3).evaluate(&blinded).unwrap(), key(4).evaluate(&blinded).unwrap());
}

#[test]
fn uppercase_hex_is_accepted() {
    let k = key(5);
    let (_, blinded) = blinded_for(b"bob");
    assert_eq!(k.evaluate(&blinded.to_uppercase()), k.evaluate(&blinded));
}

#[test]
fn client_unblinds_to_server_output() {
    let k = key(9);
    let input = b"registered identity";
    let (client, blinded) = blinded_for(input);
    let answer = hex::decode(k.evaluate(&blinded).unwrap()).unwrap();
    let element = EvaluationElement::<Ristretto255>::deserialize(&answer).unwrap();
    let unblinded = client.finalize(input, &element).unwrap();
    let server = OprfServer::<Ristretto255>::new_from_seed(&seed(9), &[]).unwrap();
    assert_eq!(unblinded, server.evaluate(input).unwrap());
}
