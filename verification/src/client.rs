//! What can go wrong on the client's side of the protocol.

use crate::text::{decimal, decimal_text};
use vstd::prelude::*;

verus! {

/// The exit code of a client that was given its key.
pub const EXIT_SUCCESS: i32 = 0;

/// The exit code of a client whose attestation the broker turned down.
pub const EXIT_ATTESTATION_FAILURE: i32 = 1;

/// The exit code of a client that failed for any other reason.
pub const EXIT_RUNTIME_ERROR: i32 = 2;

/// The failures of a client that are no verdict on its attestation.
#[derive(Debug)]
pub enum RuntimeErrorKind {
    /// The broker at the given address could not be reached.
    HTTPConnect(String, String),
    /// The broker answered with something the protocol does not foresee.
    HTTPResponse(String),
    /// The named value is not base64 text.
    Base64Decode(String, String),
    /// The named value is not the JSON document it should be.
    JSONDeserialize(String, String),
    /// The attestation report could not be generated.
    TSMReport(String),
    /// The named value could not be decrypted.
    Decrypt(String, String),
    /// The challenge could not be retrieved from the broker.
    ChallengeRetrieval(String),
    /// The challenge has the wrong number of bytes: the expected and the
    /// actual number.
    ChallengeLength(usize, usize),
    /// The evidence could not be generated.
    EvidenceGeneration(String),
    /// The broker's answer to the key request names no location.
    MissingLocation,
}

/// Every failure of a client.
#[derive(Debug)]
pub enum Error {
    /// The broker turned the attestation down: the type of the refusal and
    /// its detail.
    AttestationFailure(String, String),
    /// Anything else.
    RuntimeError(RuntimeErrorKind),
}

impl RuntimeErrorKind {
    /// The text of [`RuntimeErrorKind::message`].
    pub open spec fn message_text(self) -> Seq<char> {
        match self {
            RuntimeErrorKind::HTTPConnect(address, complaint) => "HTTP connection to "@ + address@
                + " failed with error: "@ + complaint@,
            RuntimeErrorKind::HTTPResponse(response) => "Unhandled HTTP response: "@ + response@,
            RuntimeErrorKind::Base64Decode(what, complaint) => "Failed to base64-decode "@ + what@
                + " with error: "@ + complaint@,
            RuntimeErrorKind::JSONDeserialize(what, complaint) => "Failed to JSON-deserialize "@
                + what@ + " with error: "@ + complaint@,
            RuntimeErrorKind::TSMReport(complaint) => complaint@,
            RuntimeErrorKind::Decrypt(what, complaint) => "Failed to decrypt "@ + what@
                + " with error: "@ + complaint@,
            RuntimeErrorKind::ChallengeRetrieval(complaint) => "Challenge retrieval error: "@
                + complaint@,
            RuntimeErrorKind::ChallengeLength(expected, actual) =>
                "Challenge length error, expecting "@ + decimal_text(expected as nat)
                    + " but got "@ + decimal_text(actual as nat) + " instead"@,
            RuntimeErrorKind::EvidenceGeneration(complaint) => "Evidence generation error: "@
                + complaint@,
            RuntimeErrorKind::MissingLocation => "Missing location field in HTTP requets"@,
        }
    }

    /// A sentence that describes the failure.
    pub fn message(&self) -> (text: String)
        ensures
            text@ == self.message_text(),
    {
        match self {
            RuntimeErrorKind::HTTPConnect(address, complaint) => {
                let mut text = "HTTP connection to ".to_owned();
                text.append(address.as_str());
                text.append(" failed with error: ");
                text.append(complaint.as_str());
                text
            },
            RuntimeErrorKind::HTTPResponse(response) => {
                let mut text = "Unhandled HTTP response: ".to_owned();
                text.append(response.as_str());
                text
            },
            RuntimeErrorKind::Base64Decode(what, complaint) => {
                let mut text = "Failed to base64-decode ".to_owned();
                text.append(what.as_str());
                text.append(" with error: ");
                text.append(complaint.as_str());
                text
            },
            RuntimeErrorKind::JSONDeserialize(what, complaint) => {
                let mut text = "Failed to JSON-deserialize ".to_owned();
                text.append(what.as_str());
                text.append(" with error: ");
                text.append(complaint.as_str());
                text
            },
            RuntimeErrorKind::TSMReport(complaint) => complaint.clone(),
            RuntimeErrorKind::Decrypt(what, complaint) => {
                let mut text = "Failed to decrypt ".to_owned();
                text.append(what.as_str());
                text.append(" with error: ");
                text.append(complaint.as_str());
                text
            },
            RuntimeErrorKind::ChallengeRetrieval(complaint) => {
                let mut text = "Challenge retrieval error: ".to_owned();
                text.append(complaint.as_str());
                text
            },
            RuntimeErrorKind::ChallengeLength(expected, actual) => {
                let mut text = "Challenge length error, expecting ".to_owned();
                text.append(decimal(*expected as u64).as_str());
                text.append(" but got ");
                text.append(decimal(*actual as u64).as_str());
                text.append(" instead");
                text
            },
            RuntimeErrorKind::EvidenceGeneration(complaint) => {
                let mut text = "Evidence generation error: ".to_owned();
                text.append(complaint.as_str());
                text
            },
            RuntimeErrorKind::MissingLocation => "Missing location field in HTTP requets".to_owned(),
        }
    }
}

impl Error {
    /// The text of [`Error::message`].
    pub open spec fn message_text(self) -> Seq<char> {
        match self {
            Error::AttestationFailure(reason, detail) => "Attestation failure: "@ + reason@ + " ("@
                + detail@ + ")"@,
            Error::RuntimeError(kind) => kind.message_text(),
        }
    }

    /// A sentence that describes the failure.
    pub fn message(&self) -> (text: String)
        ensures
            text@ == self.message_text(),
    {
        match self {
            Error::AttestationFailure(reason, detail) => {
                let mut text = "Attestation failure: ".to_owned();
                text.append(reason.as_str());
                text.append(" (");
                text.append(detail.as_str());
                text.append(")");
                text
            },
            Error::RuntimeError(kind) => kind.message(),
        }
    }
}

/// The result of a client operation.
pub type Result<T> = std::result::Result<T, Error>;

/// The exit code that a request for a key ends the client with.
pub open spec fn exit_code_of(requested: Result<Vec<u8>>) -> i32 {
    match requested {
        Ok(_) => EXIT_SUCCESS,
        Err(Error::AttestationFailure(_, _)) => EXIT_ATTESTATION_FAILURE,
        Err(Error::RuntimeError(_)) => EXIT_RUNTIME_ERROR,
    }
}

/// The exit code that a request for a key ends the client with: 0 where the
/// key was released, 1 where the broker turned the attestation down, 2 for
/// every other failure.
pub fn exit_code(requested: &Result<Vec<u8>>) -> (code: i32)
    ensures
        code == exit_code_of(*requested),
{
    match requested {
        Ok(_) => EXIT_SUCCESS,
        Err(Error::AttestationFailure(_, _)) => EXIT_ATTESTATION_FAILURE,
        Err(Error::RuntimeError(_)) => EXIT_RUNTIME_ERROR,
    }
}

} // verus!
