use keybroker::client::{exit_code, Error, RuntimeErrorKind};

#[test]
fn attestation_failure_message() {
    let error = Error::AttestationFailure(
        "AttestationFailure".to_string(),
        "The attestation result is not in policy.".to_string(),
    );
    assert_eq!(
        error.message(),
        "Attestation failure: AttestationFailure (The attestation result is not in policy.)"
    );
}

#[test]
fn runtime_error_messages() {
    let cases = vec![
        (
            RuntimeErrorKind::HTTPConnect("http://127.0.0.1:8088".to_string(), "refused".to_string()),
            "HTTP connection to http://127.0.0.1:8088 failed with error: refused",
        ),
        (RuntimeErrorKind::HTTPResponse("418".to_string()), "Unhandled HTTP response: 418"),
        (
            RuntimeErrorKind::Base64Decode("challenge".to_string(), "Invalid padding".to_string()),
            "Failed to base64-decode challenge with error: Invalid padding",
        ),
        (
            RuntimeErrorKind::JSONDeserialize("body".to_string(), "EOF".to_string()),
            "Failed to JSON-deserialize body with error: EOF",
        ),
        (RuntimeErrorKind::TSMReport("no TSM".to_string()), "no TSM"),
        (
            RuntimeErrorKind::Decrypt("key".to_string(), "decryption error".to_string()),
            "Failed to decrypt key with error: decryption error",
        ),
        (
            RuntimeErrorKind::ChallengeRetrieval("gone".to_string()),
            "Challenge retrieval error: gone",
        ),
        (
            RuntimeErrorKind::ChallengeLength(64, 32),
            "Challenge length error, expecting 64 but got 32 instead",
        ),
        (
            RuntimeErrorKind::ChallengeLength(0, 1234567890),
            "Challenge length error, expecting 0 but got 1234567890 instead",
        ),
        (
            RuntimeErrorKind::EvidenceGeneration("no token".to_string()),
            "Evidence generation error: no token",
        ),
        (RuntimeErrorKind::MissingLocation, "Missing location field in HTTP requets"),
    ];
    for (kind, text) in cases {
        assert_eq!(kind.message(), text);
        assert_eq!(Error::RuntimeError(kind).message(), text);
    }
}

#[test]
fn exit_codes() {
    assert_eq!(exit_code(&Ok(b"secret".to_vec())), 0);
    assert_eq!(exit_code(&Ok(vec![])), 0);
    assert_eq!(
        exit_code(&Err(Error::AttestationFailure("AttestationFailure".to_string(), "".to_string()))),
        1
    );
    assert_eq!(exit_code(&Err(Error::RuntimeError(RuntimeErrorKind::MissingLocation))), 2);
    assert_eq!(
        exit_code(&Err(Error::RuntimeError(RuntimeErrorKind::HTTPResponse("500".to_string())))),
        2
    );
}
