use keybroker::common::{
    AttestationChallenge, BackgroundCheckKeyRequest, ErrorInformation, PublicWrappingKey,
    WrappedKeyData,
};
use keybroker::error::{ChallengeErrorKind, Error, KeyStoreErrorKind, VerificationErrorKind};

#[test]
fn key_store_messages() {
    assert_eq!(KeyStoreErrorKind::KeyNotFound.message(), "Requested key is not in the store.");
    assert_eq!(
        KeyStoreErrorKind::UnsupportedWrappingKeyType.message(),
        "The wrapping key type is not supported. Wrapping key must be an RSA key."
    );
    assert_eq!(
        KeyStoreErrorKind::UnsupportedWrappingKeyAlgorithm.message(),
        "Thw wrapping key encryption algorithm is not supported."
    );
}

#[test]
fn challenge_message() {
    assert_eq!(
        ChallengeErrorKind::ChallengeNotFound.message(),
        "Reference to a challenge that does not exist."
    );
}

#[test]
fn verification_messages() {
    assert_eq!(
        VerificationErrorKind::NoChallengeResponseEndpoint.message(),
        "No newChallengeResponseSession endpoint was found on the Veraison server."
    );
    assert_eq!(
        VerificationErrorKind::PolicyNotFound.message(),
        "No appraisal policy is registered for the evidence media type."
    );
    assert_eq!(
        VerificationErrorKind::NoReferenceValues.message(),
        "No known-good reference values were supplied."
    );
    assert_eq!(
        VerificationErrorKind::EARCCAError("No CCA_REALM in the ear".to_string()).message(),
        "EAR CCA error: No CCA_REALM in the ear"
    );
}

#[test]
fn error_message_is_that_of_what_it_holds() {
    assert_eq!(Error::VeraisonApi("a".to_string()).message(), "a");
    assert_eq!(Error::Ear("b".to_string()).message(), "b");
    assert_eq!(Error::Rsa("c".to_string()).message(), "c");
    assert_eq!(Error::Base64Decode("d".to_string()).message(), "d");
    assert_eq!(Error::Policy("e".to_string()).message(), "e");
    assert_eq!(Error::Json("f".to_string()).message(), "f");
    assert_eq!(
        Error::KeyStore(KeyStoreErrorKind::KeyNotFound).message(),
        "Requested key is not in the store."
    );
    assert_eq!(
        Error::Challenge(ChallengeErrorKind::ChallengeNotFound).message(),
        "Reference to a challenge that does not exist."
    );
    assert_eq!(
        Error::Verification(VerificationErrorKind::NoReferenceValues).message(),
        "No known-good reference values were supplied."
    );
}

#[test]
fn errors_clone_as_they_are() {
    let error = Error::Verification(VerificationErrorKind::EARCCAError("x".to_string()));
    assert_eq!(error.clone().message(), error.message());
    assert!(matches!(
        error.clone(),
        Error::Verification(VerificationErrorKind::EARCCAError(_))
    ));
    assert!(matches!(
        Error::KeyStore(KeyStoreErrorKind::UnsupportedWrappingKeyType).clone(),
        Error::KeyStore(KeyStoreErrorKind::UnsupportedWrappingKeyType)
    ));
    assert!(matches!(Error::Rsa("r".to_string()).clone(), Error::Rsa(_)));
}

#[test]
fn common_types_clone_as_they_are() {
    let key = PublicWrappingKey {
        kty: "RSA".to_string(),
        alg: "RSA1_5".to_string(),
        n: "AQAB".to_string(),
        e: "AQ".to_string(),
    };
    let copy = key.clone();
    assert_eq!((copy.kty, copy.alg, copy.n, copy.e), (key.kty.clone(), key.alg.clone(), key.n.clone(), key.e.clone()));

    let request = BackgroundCheckKeyRequest { pubkey: key };
    assert_eq!(request.clone().pubkey.n, "AQAB");

    let challenge = AttestationChallenge {
        challenge: "bobW".to_string(),
        accept: vec!["a/b".to_string(), "c/d".to_string()],
    };
    let copy = challenge.clone();
    assert_eq!(copy.challenge, "bobW");
    assert_eq!(copy.accept, vec!["a/b".to_string(), "c/d".to_string()]);

    let information = ErrorInformation {
        error_type: "AttestationFailure".to_string(),
        detail: "detail".to_string(),
    };
    let copy = information.clone();
    assert_eq!(copy.error_type, "AttestationFailure");
    assert_eq!(copy.detail, "detail");

    let wrapped = WrappedKeyData { data: "AAAA".to_string() };
    assert_eq!(wrapped.clone().data, "AAAA");
}
