//! The data types that travel between the broker and its clients.

use vstd::prelude::*;

verus! {

/// Evidence as it travels in a request body: base64url text without padding.
pub type EvidenceBytes = String;

/// The media type of a piece of evidence.
pub type EvidenceContentType = String;

/// The public half of the key pair under which a released secret is wrapped.
#[derive(Debug)]
pub struct PublicWrappingKey {
    /// Key type; only `"RSA"` is accepted.
    pub kty: String,
    /// Encryption algorithm: `"RSA1_5"` or `"RSA-OAEP"`.
    pub alg: String,
    /// Modulus, big-endian, as base64url text without padding.
    pub n: String,
    /// Public exponent, big-endian, as base64url text without padding.
    pub e: String,
}

/// What a [`PublicWrappingKey`] holds.
pub struct PublicWrappingKeyView {
    pub kty: Seq<char>,
    pub alg: Seq<char>,
    pub n: Seq<char>,
    pub e: Seq<char>,
}

impl View for PublicWrappingKey {
    type V = PublicWrappingKeyView;

    open spec fn view(&self) -> PublicWrappingKeyView {
        PublicWrappingKeyView { kty: self.kty@, alg: self.alg@, n: self.n@, e: self.e@ }
    }
}

impl Clone for PublicWrappingKey {
    fn clone(&self) -> (copy: Self)
        ensures
            copy@ == self@,
    {
        PublicWrappingKey {
            kty: self.kty.clone(),
            alg: self.alg.clone(),
            n: self.n.clone(),
            e: self.e.clone(),
        }
    }
}

/// A request for a key. The key's name is not part of it: it is the last
/// segment of the path the request is sent to.
#[derive(Debug)]
pub struct BackgroundCheckKeyRequest {
    /// The key under which the secret is to be wrapped.
    pub pubkey: PublicWrappingKey,
}

impl View for BackgroundCheckKeyRequest {
    type V = PublicWrappingKeyView;

    open spec fn view(&self) -> PublicWrappingKeyView {
        self.pubkey@
    }
}

impl Clone for BackgroundCheckKeyRequest {
    fn clone(&self) -> (copy: Self)
        ensures
            copy@ == self@,
    {
        BackgroundCheckKeyRequest { pubkey: self.pubkey.clone() }
    }
}

/// The broker's answer to a key request: the nonce that the evidence must
/// incorporate, and the evidence media types the broker will take.
#[derive(Debug)]
pub struct AttestationChallenge {
    /// The nonce, as base64url text without padding.
    pub challenge: String,
    /// Acceptable evidence media types.
    pub accept: Vec<EvidenceContentType>,
}

/// What an [`AttestationChallenge`] holds.
pub struct AttestationChallengeView {
    pub challenge: Seq<char>,
    pub accept: Seq<Seq<char>>,
}

/// The texts of a list of strings.
pub open spec fn texts(list: Seq<String>) -> Seq<Seq<char>> {
    list.map_values(|s: String| s@)
}

impl View for AttestationChallenge {
    type V = AttestationChallengeView;

    open spec fn view(&self) -> AttestationChallengeView {
        AttestationChallengeView { challenge: self.challenge@, accept: texts(self.accept@) }
    }
}

/// A copy of a list of strings.
pub fn clone_strings(list: &Vec<String>) -> (copy: Vec<String>)
    ensures
        texts(copy@) == texts(list@),
{
    let mut copy: Vec<String> = Vec::new();
    let mut i: usize = 0;
    while i < list.len()
        invariant
            i <= list.len(),
            copy.len() == i,
            forall|j: int| 0 <= j < i ==> copy@[j]@ == list@[j]@,
        decreases list.len() - i,
    {
        copy.push(list[i].clone());
        i += 1;
    }
    assert(texts(copy@) =~= texts(list@));
    copy
}

impl Clone for AttestationChallenge {
    fn clone(&self) -> (copy: Self)
        ensures
            copy@ == self@,
    {
        AttestationChallenge {
            challenge: self.challenge.clone(),
            accept: clone_strings(&self.accept),
        }
    }
}

/// What the broker tells a client whose request it turns down.
#[derive(Debug)]
pub struct ErrorInformation {
    /// The formal category of the failure.
    pub error_type: String,
    /// Human-readable detail.
    pub detail: String,
}

/// What an [`ErrorInformation`] holds.
pub struct ErrorInformationView {
    pub error_type: Seq<char>,
    pub detail: Seq<char>,
}

impl View for ErrorInformation {
    type V = ErrorInformationView;

    open spec fn view(&self) -> ErrorInformationView {
        ErrorInformationView { error_type: self.error_type@, detail: self.detail@ }
    }
}

impl Clone for ErrorInformation {
    fn clone(&self) -> (copy: Self)
        ensures
            copy@ == self@,
    {
        ErrorInformation { error_type: self.error_type.clone(), detail: self.detail.clone() }
    }
}

/// A secret as it is released: encrypted under the client's wrapping key.
#[derive(Debug)]
pub struct WrappedKeyData {
    /// The ciphertext, as base64url text without padding.
    pub data: String,
}

impl View for WrappedKeyData {
    type V = Seq<char>;

    open spec fn view(&self) -> Seq<char> {
        self.data@
    }
}

impl Clone for WrappedKeyData {
    fn clone(&self) -> (copy: Self)
        ensures
            copy@ == self@,
    {
        WrappedKeyData { data: self.data.clone() }
    }
}

} // verus!
