//! The broker's failures.

use vstd::prelude::*;

verus! {

/// Failures of the verification logic itself, as opposed to failures of the
/// services it calls.
#[derive(Debug)]
pub enum VerificationErrorKind {
    /// The verification service does not advertise a way to open a
    /// challenge-response session.
    NoChallengeResponseEndpoint,
    /// No appraisal policy is bound to the evidence media type.
    PolicyNotFound,
    /// No known-good reference values were supplied.
    NoReferenceValues,
    /// The attestation result lacks something a CCA appraisal must have.
    EARCCAError(String),
}

/// What a [`VerificationErrorKind`] holds.
pub enum VerificationErrorKindView {
    NoChallengeResponseEndpoint,
    PolicyNotFound,
    NoReferenceValues,
    EARCCAError(Seq<char>),
}

impl View for VerificationErrorKind {
    type V = VerificationErrorKindView;

    open spec fn view(&self) -> VerificationErrorKindView {
        match self {
            VerificationErrorKind::NoChallengeResponseEndpoint =>
                VerificationErrorKindView::NoChallengeResponseEndpoint,
            VerificationErrorKind::PolicyNotFound => VerificationErrorKindView::PolicyNotFound,
            VerificationErrorKind::NoReferenceValues =>
                VerificationErrorKindView::NoReferenceValues,
            VerificationErrorKind::EARCCAError(detail) => VerificationErrorKindView::EARCCAError(
                detail@,
            ),
        }
    }
}

/// Failures of the key store.
#[derive(Debug, Clone, Copy, PartialEq, Eq, Structural)]
pub enum KeyStoreErrorKind {
    /// The requested key is not in the store.
    KeyNotFound,
    /// The wrapping key is not an RSA key.
    UnsupportedWrappingKeyType,
    /// The wrapping key names an encryption algorithm the store does not offer.
    UnsupportedWrappingKeyAlgorithm,
}

/// Failures of challenge management.
#[derive(Debug, Clone, Copy, PartialEq, Eq, Structural)]
pub enum ChallengeErrorKind {
    /// No live challenge has the given identifier.
    ChallengeNotFound,
}

/// Every failure the broker's operations can report.
///
/// A failure that arose outside the broker's own logic is carried as the text
/// in which its source described it.
#[derive(Debug)]
pub enum Error {
    /// The verification service could not be reached or turned a request down.
    VeraisonApi(String),
    /// The attestation result could not be parsed or its signature did not
    /// verify.
    Ear(String),
    /// The logic of verification failed.
    Verification(VerificationErrorKind),
    /// RSA key construction or encryption failed.
    Rsa(String),
    /// The key store turned the request down.
    KeyStore(KeyStoreErrorKind),
    /// The challenge table turned the request down.
    Challenge(ChallengeErrorKind),
    /// A base64 text could not be decoded.
    Base64Decode(String),
    /// The policy could not be loaded or evaluated.
    Policy(String),
    /// A value could not be written as JSON.
    Json(String),
}

/// What an [`Error`] holds.
pub enum ErrorView {
    VeraisonApi(Seq<char>),
    Ear(Seq<char>),
    Verification(VerificationErrorKindView),
    Rsa(Seq<char>),
    KeyStore(KeyStoreErrorKind),
    Challenge(ChallengeErrorKind),
    Base64Decode(Seq<char>),
    Policy(Seq<char>),
    Json(Seq<char>),
}

impl View for Error {
    type V = ErrorView;

    open spec fn view(&self) -> ErrorView {
        match self {
            Error::VeraisonApi(text) => ErrorView::VeraisonApi(text@),
            Error::Ear(text) => ErrorView::Ear(text@),
            Error::Verification(kind) => ErrorView::Verification(kind@),
            Error::Rsa(text) => ErrorView::Rsa(text@),
            Error::KeyStore(kind) => ErrorView::KeyStore(*kind),
            Error::Challenge(kind) => ErrorView::Challenge(*kind),
            Error::Base64Decode(text) => ErrorView::Base64Decode(text@),
            Error::Policy(text) => ErrorView::Policy(text@),
            Error::Json(text) => ErrorView::Json(text@),
        }
    }
}

impl VerificationErrorKindView {
    /// The sentence that describes the failure.
    pub open spec fn message_text(self) -> Seq<char> {
        match self {
            VerificationErrorKindView::NoChallengeResponseEndpoint =>
                "No newChallengeResponseSession endpoint was found on the Veraison server."@,
            VerificationErrorKindView::PolicyNotFound =>
                "No appraisal policy is registered for the evidence media type."@,
            VerificationErrorKindView::NoReferenceValues =>
                "No known-good reference values were supplied."@,
            VerificationErrorKindView::EARCCAError(detail) => "EAR CCA error: "@ + detail,
        }
    }
}

impl ErrorView {
    /// The sentence that describes the failure: that of the failure inside.
    pub open spec fn message_text(self) -> Seq<char> {
        match self {
            ErrorView::VeraisonApi(text) => text,
            ErrorView::Ear(text) => text,
            ErrorView::Verification(kind) => kind.message_text(),
            ErrorView::Rsa(text) => text,
            ErrorView::KeyStore(kind) => kind.message_text(),
            ErrorView::Challenge(kind) => kind.message_text(),
            ErrorView::Base64Decode(text) => text,
            ErrorView::Policy(text) => text,
            ErrorView::Json(text) => text,
        }
    }
}

impl VerificationErrorKind {
    /// The text of [`VerificationErrorKind::message`].
    pub open spec fn message_text(self) -> Seq<char> {
        self@.message_text()
    }

    /// A sentence that describes the failure.
    pub fn message(&self) -> (text: String)
        ensures
            text@ == self.message_text(),
    {
        match self {
            VerificationErrorKind::NoChallengeResponseEndpoint =>
                "No newChallengeResponseSession endpoint was found on the Veraison server.".to_owned(),
            VerificationErrorKind::PolicyNotFound =>
                "No appraisal policy is registered for the evidence media type.".to_owned(),
            VerificationErrorKind::NoReferenceValues =>
                "No known-good reference values were supplied.".to_owned(),
            VerificationErrorKind::EARCCAError(detail) => {
                let mut text = "EAR CCA error: ".to_owned();
                text.append(detail.as_str());
                text
            },
        }
    }
}

impl Clone for VerificationErrorKind {
    fn clone(&self) -> (copy: Self)
        ensures
            copy@ == self@,
    {
        match self {
            VerificationErrorKind::NoChallengeResponseEndpoint =>
                VerificationErrorKind::NoChallengeResponseEndpoint,
            VerificationErrorKind::PolicyNotFound => VerificationErrorKind::PolicyNotFound,
            VerificationErrorKind::NoReferenceValues => VerificationErrorKind::NoReferenceValues,
            VerificationErrorKind::EARCCAError(detail) =>
                VerificationErrorKind::EARCCAError(detail.clone()),
        }
    }
}

impl KeyStoreErrorKind {
    /// The text of [`KeyStoreErrorKind::message`].
    pub open spec fn message_text(self) -> Seq<char> {
        match self {
            KeyStoreErrorKind::KeyNotFound => "Requested key is not in the store."@,
            KeyStoreErrorKind::UnsupportedWrappingKeyType =>
                "The wrapping key type is not supported. Wrapping key must be an RSA key."@,
            KeyStoreErrorKind::UnsupportedWrappingKeyAlgorithm =>
                "Thw wrapping key encryption algorithm is not supported."@,
        }
    }

    /// A sentence that describes the failure.
    pub fn message(&self) -> (text: String)
        ensures
            text@ == self.message_text(),
    {
        match self {
            KeyStoreErrorKind::KeyNotFound => "Requested key is not in the store.".to_owned(),
            KeyStoreErrorKind::UnsupportedWrappingKeyType =>
                "The wrapping key type is not supported. Wrapping key must be an RSA key.".to_owned(),
            KeyStoreErrorKind::UnsupportedWrappingKeyAlgorithm =>
                "Thw wrapping key encryption algorithm is not supported.".to_owned(),
        }
    }
}

impl ChallengeErrorKind {
    /// The text of [`ChallengeErrorKind::message`].
    pub open spec fn message_text(self) -> Seq<char> {
        "Reference to a challenge that does not exist."@
    }

    /// A sentence that describes the failure.
    pub fn message(&self) -> (text: String)
        ensures
            text@ == self.message_text(),
    {
        "Reference to a challenge that does not exist.".to_owned()
    }
}

impl Error {
    /// The text of [`Error::message`]: that of the failure inside.
    pub open spec fn message_text(self) -> Seq<char> {
        self@.message_text()
    }

    /// A sentence that describes the failure.
    pub fn message(&self) -> (text: String)
        ensures
            text@ == self.message_text(),
    {
        match self {
            Error::VeraisonApi(text) => text.clone(),
            Error::Ear(text) => text.clone(),
            Error::Verification(kind) => kind.message(),
            Error::Rsa(text) => text.clone(),
            Error::KeyStore(kind) => kind.message(),
            Error::Challenge(kind) => kind.message(),
            Error::Base64Decode(text) => text.clone(),
            Error::Policy(text) => text.clone(),
            Error::Json(text) => text.clone(),
        }
    }
}

impl Clone for Error {
    fn clone(&self) -> (copy: Self)
        ensures
            copy@ == self@,
    {
        match self {
            Error::VeraisonApi(text) => Error::VeraisonApi(text.clone()),
            Error::Ear(text) => Error::Ear(text.clone()),
            Error::Verification(kind) => Error::Verification(kind.clone()),
            Error::Rsa(text) => Error::Rsa(text.clone()),
            Error::KeyStore(kind) => Error::KeyStore(*kind),
            Error::Challenge(kind) => Error::Challenge(*kind),
            Error::Base64Decode(text) => Error::Base64Decode(text.clone()),
            Error::Policy(text) => Error::Policy(text.clone()),
            Error::Json(text) => Error::Json(text.clone()),
        }
    }
}

/// The result of a broker operation.
pub type Result<T> = std::result::Result<T, Error>;

} // verus!
