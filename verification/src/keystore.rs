//! Named secrets, released only in wrapped form.
//!
//! The store holds byte strings under names. Nothing hands a stored secret
//! out as it is: the one way to it is [`KeyStore::wrap_key`], which encrypts it
//! under an RSA public key that the caller supplies.

use crate::common::{PublicWrappingKey, PublicWrappingKeyView, WrappedKeyData};
use crate::encoding::{
    base64url_decode, base64url_decoding, base64url_encode, base64url_encoding, max_encodable_len,
    same_text,
};
use crate::error::{Error, KeyStoreErrorKind};
use rsa::{BigUint, Oaep, Pkcs1v15Encrypt, RsaPublicKey};
use sha2::Sha256;
use vstd::hash_map::StringHashMap;
use vstd::prelude::*;

verus! {

/// The key type a wrapping key must declare.
pub const RSA_KEY_TYPE: &'static str = "RSA";

/// The algorithm name that selects PKCS#1 v1.5 padding.
pub const RSA_PKCS15_ALGORITHM: &'static str = "RSA1_5";

/// The algorithm name that selects OAEP padding with SHA-256.
pub const RSA_OAEP_ALGORITHM: &'static str = "RSA-OAEP";

/// The padding under which a secret is encrypted.
#[derive(Debug, Clone, Copy, PartialEq, Eq, Structural)]
pub enum Padding {
    /// PKCS#1 v1.5.
    Pkcs1v15,
    /// OAEP, with SHA-256 as the hash of the label and of the mask.
    OaepSha256,
}

impl Padding {
    /// How many bytes shorter than the modulus the longest message is that
    /// the padding leaves room for.
    pub open spec fn overhead(self) -> nat {
        match self {
            Padding::Pkcs1v15 => 11,
            Padding::OaepSha256 => 66,
        }
    }
}

/// The padding an algorithm name selects, if it selects one.
pub open spec fn padding_named(alg: Seq<char>) -> Option<Padding> {
    if alg == RSA_PKCS15_ALGORITHM@ {
        Some(Padding::Pkcs1v15)
    } else if alg == RSA_OAEP_ALGORITHM@ {
        Some(Padding::OaepSha256)
    } else {
        None
    }
}

/// The number that a byte string writes in base 256, most significant byte
/// first. Leading zero bytes do not change it, and the empty string writes 0.
pub open spec fn be_value(bytes: Seq<u8>) -> nat
    decreases bytes.len(),
{
    if bytes.len() == 0 {
        0
    } else {
        be_value(bytes.drop_last()) * 256 + bytes.last() as nat
    }
}

/// The number of binary digits of a number; 0 has none.
pub open spec fn bit_length(value: nat) -> nat
    decreases value,
{
    if value == 0 {
        0
    } else {
        1 + bit_length(value / 2)
    }
}

/// The size in bytes of an RSA modulus given in big-endian bytes: the length
/// of every ciphertext made with it.
pub open spec fn modulus_size(modulus: Seq<u8>) -> nat {
    (bit_length(be_value(modulus)) + 7) / 8
}

/// Whether the `rsa` crate takes a modulus and a public exponent, each given in
/// big-endian bytes, for a public key.
///
/// The modulus has at most 4096 bits and is odd; the exponent is odd, at
/// least 2, at most 2^33 - 1, and less than the modulus.
pub open spec fn rsa_public_key_accepted(modulus: Seq<u8>, exponent: Seq<u8>) -> bool {
    let n = be_value(modulus);
    let e = be_value(exponent);
    &&& bit_length(n) <= 4096
    &&& e < n
    &&& n % 2 == 1
    &&& e % 2 == 1
    &&& 2 <= e <= 0x1_ffff_ffff
}

/// Has `RsaPublicKey::new` judge the key whose modulus and exponent are the
/// numbers that the two byte strings write, most significant byte first.
/// The key is taken exactly where [`rsa_public_key_accepted`] holds; a refusal
/// is handed on as the text of the crate's error.
#[verifier::external_body]
fn rsa_check_public_key(modulus: &Vec<u8>, exponent: &Vec<u8>) -> (checked: Result<(), String>)
    ensures
        checked is Ok <==> rsa_public_key_accepted(modulus@, exponent@),
{
    RsaPublicKey::new(BigUint::from_bytes_be(modulus), BigUint::from_bytes_be(exponent))
        .map(|_key| ())
        .map_err(|e| e.to_string())
}

/// Encrypts `message` with `RsaPublicKey::encrypt` under PKCS#1 v1.5
/// padding, with the thread's random number generator, for the key that the
/// two byte strings write.
///
/// The padding takes 11 bytes: encryption succeeds exactly where the message
/// with them fits the modulus, and the ciphertext is as long as the modulus.
/// Which ciphertext comes is a matter of chance. A failure is handed on as the
/// text of the crate's error.
#[verifier::external_body]
fn rsa_encrypt_pkcs1v15(modulus: &Vec<u8>, exponent: &Vec<u8>, message: &Vec<u8>) -> (encrypted:
    Result<Vec<u8>, String>)
    requires
        rsa_public_key_accepted(modulus@, exponent@),
    ensures
        encrypted is Ok <==> message@.len() + 11 <= modulus_size(modulus@),
        encrypted matches Ok(ciphertext) ==> ciphertext@.len() == modulus_size(modulus@),
{
    let key = RsaPublicKey::new_unchecked(
        BigUint::from_bytes_be(modulus),
        BigUint::from_bytes_be(exponent),
    );
    key.encrypt(&mut rand::thread_rng(), Pkcs1v15Encrypt, message).map_err(|e| e.to_string())
}

/// Encrypts `message` with `RsaPublicKey::encrypt` under OAEP padding with
/// SHA-256 and no label, with the thread's random number generator, for the
/// key that the two byte strings write.
///
/// The padding takes two hashes of 32 bytes and 2 bytes more: encryption
/// succeeds exactly where the message with them fits the modulus, and the
/// ciphertext is as long as the modulus. Which ciphertext comes is a matter of
/// chance. A failure is handed on as the text of the crate's error.
#[verifier::external_body]
fn rsa_encrypt_oaep_sha256(modulus: &Vec<u8>, exponent: &Vec<u8>, message: &Vec<u8>) -> (encrypted:
    Result<Vec<u8>, String>)
    requires
        rsa_public_key_accepted(modulus@, exponent@),
    ensures
        encrypted is Ok <==> message@.len() + 66 <= modulus_size(modulus@),
        encrypted matches Ok(ciphertext) ==> ciphertext@.len() == modulus_size(modulus@),
{
    let key = RsaPublicKey::new_unchecked(
        BigUint::from_bytes_be(modulus),
        BigUint::from_bytes_be(exponent),
    );
    key.encrypt(&mut rand::thread_rng(), Oaep::new::<Sha256>(), message).map_err(|e| e.to_string())
}

/// The secrets of a store as contracts see them: each under its name.
pub type Secrets = Map<Seq<char>, Seq<u8>>;

/// What wrapping has to do, once the wrapping key's modulus and exponent are
/// at hand in bytes.
pub enum WrapStep {
    /// Turn the request down, for the given reason.
    Refuse(KeyStoreErrorKind),
    /// Turn the request down because the wrapping key is no acceptable RSA
    /// key.
    RefuseKey,
    /// Encrypt the secret under the wrapping key, with the given padding.
    Encrypt { padding: Padding, plaintext: Seq<u8> },
}

/// What wrapping the secret named `key_id` has to do for a wrapping key with
/// the given modulus and exponent and the algorithm name `alg`.
///
/// The key is judged first, then the secret is looked up, then the padding is
/// chosen; the first of these that fails decides.
pub open spec fn wrap_step(
    secrets: Secrets,
    key_id: Seq<char>,
    alg: Seq<char>,
    modulus: Seq<u8>,
    exponent: Seq<u8>,
) -> WrapStep {
    if !rsa_public_key_accepted(modulus, exponent) {
        WrapStep::RefuseKey
    } else if !secrets.contains_key(key_id) {
        WrapStep::Refuse(KeyStoreErrorKind::KeyNotFound)
    } else {
        match padding_named(alg) {
            None => WrapStep::Refuse(KeyStoreErrorKind::UnsupportedWrappingKeyAlgorithm),
            Some(padding) => WrapStep::Encrypt { padding, plaintext: secrets[key_id] },
        }
    }
}

/// Whether `outcome` is what a wrapping step may end in, for a wrapping key
/// with the given modulus.
///
/// A refusal ends in its error. An encryption ends in a wrapped key wherever
/// the secret, with the padding's overhead, fits the modulus, and in an RSA
/// error wherever it does not. The wrapped key is the base64url text of a
/// ciphertext as long as the modulus; which one, chance decides.
pub open spec fn wrap_step_outcome(
    step: WrapStep,
    modulus: Seq<u8>,
    outcome: Result<WrappedKeyData, Error>,
) -> bool {
    match step {
        WrapStep::Refuse(kind) => outcome matches Err(Error::KeyStore(k)) && k == kind,
        WrapStep::RefuseKey => outcome matches Err(Error::Rsa(_)),
        WrapStep::Encrypt { padding, plaintext } => {
            if plaintext.len() + padding.overhead() <= modulus_size(modulus) {
                outcome matches Ok(wrapped) && exists|ciphertext: Seq<u8>|
                    #![trigger base64url_encoding(ciphertext)]
                    ciphertext.len() == modulus_size(modulus) && wrapped@ == base64url_encoding(
                        ciphertext,
                    )
            } else {
                outcome matches Err(Error::Rsa(_))
            }
        },
    }
}

/// Whether `outcome` is what wrapping the secret named `key_id` under
/// `wrapping_key` may end in.
///
/// A key type other than [`RSA_KEY_TYPE`] is refused before anything else is
/// looked at. Then the modulus and the exponent are decoded, the modulus
/// first, and a text that does not decode ends the attempt with the decoder's
/// complaint. What follows is [`wrap_step`] on the decoded bytes.
pub open spec fn wrap_outcome(
    secrets: Secrets,
    key_id: Seq<char>,
    wrapping_key: PublicWrappingKeyView,
    outcome: Result<WrappedKeyData, Error>,
) -> bool {
    if wrapping_key.kty != RSA_KEY_TYPE@ {
        outcome matches Err(Error::KeyStore(KeyStoreErrorKind::UnsupportedWrappingKeyType))
    } else {
        match base64url_decoding(wrapping_key.n) {
            Err(complaint) => outcome matches Err(Error::Base64Decode(text)) && text@ == complaint,
            Ok(modulus) => match base64url_decoding(wrapping_key.e) {
                Err(complaint) => outcome matches Err(Error::Base64Decode(text)) && text@
                    == complaint,
                Ok(exponent) => wrap_step_outcome(
                    wrap_step(secrets, key_id, wrapping_key.alg, modulus, exponent),
                    modulus,
                    outcome,
                ),
            },
        }
    }
}

/// Of `secrets`, the one named `key_id`, if there is one, and nothing else.
pub open spec fn entry_of(secrets: Secrets, key_id: Seq<char>) -> Secrets {
    if secrets.contains_key(key_id) {
        Secrets::empty().insert(key_id, secrets[key_id])
    } else {
        Secrets::empty()
    }
}

/// A store of secrets by name.
pub struct KeyStore {
    keys: StringHashMap<Vec<u8>>,
}

impl View for KeyStore {
    type V = Secrets;

    /// The stored secrets, by name.
    closed spec fn view(&self) -> Secrets {
        self.keys@.map_values(|secret: Vec<u8>| secret@)
    }
}

/// The padding that an algorithm name selects.
pub fn select_padding(alg: &str) -> (selected: Result<Padding, Error>)
    ensures
        match padding_named(alg@) {
            Some(padding) => selected == Ok::<Padding, Error>(padding),
            None => selected == Err::<Padding, Error>(
                Error::KeyStore(KeyStoreErrorKind::UnsupportedWrappingKeyAlgorithm),
            ),
        },
{
    if same_text(alg, RSA_PKCS15_ALGORITHM) {
        Ok(Padding::Pkcs1v15)
    } else if same_text(alg, RSA_OAEP_ALGORITHM) {
        Ok(Padding::OaepSha256)
    } else {
        Err(Error::KeyStore(KeyStoreErrorKind::UnsupportedWrappingKeyAlgorithm))
    }
}

/// The wrapped key that a finished encryption makes, or the failure that an
/// unfinished one makes: the ciphertext goes into base64url text, the
/// complaint into an RSA error.
pub fn wrapped_key_from(encrypted: Result<Vec<u8>, String>) -> (outcome: Result<
    WrappedKeyData,
    Error,
>)
    requires
        encrypted matches Ok(ciphertext) ==> ciphertext@.len() <= max_encodable_len(),
    ensures
        match encrypted {
            Ok(ciphertext) => outcome matches Ok(wrapped) && wrapped@ == base64url_encoding(
                ciphertext@,
            ),
            Err(complaint) => outcome matches Err(Error::Rsa(text)) && text@ == complaint@,
        },
{
    match encrypted {
        Ok(ciphertext) => Ok(WrappedKeyData { data: base64url_encode(&ciphertext) }),
        Err(complaint) => Err(Error::Rsa(complaint)),
    }
}

impl KeyStore {
    /// An empty store.
    pub fn new() -> (store: KeyStore)
        ensures
            store@ == Secrets::empty(),
    {
        let store = KeyStore { keys: StringHashMap::new() };
        assert(store@ =~= Secrets::empty());
        store
    }

    /// Stores a secret under a name, in place of any secret stored under that
    /// name before.
    ///
    /// The secret is taken as it is. This is for filling the store from
    /// sources the broker trusts, not for input from the network.
    pub fn store_key(&mut self, key_id: &str, data: Vec<u8>)
        ensures
            final(self)@ == old(self)@.insert(key_id@, data@),
    {
        self.keys.insert(key_id.to_owned(), data);
        assert(self@ =~= old(self)@.insert(key_id@, data@));
    }

    /// A store that holds the secret named `key_id`, if this store holds one,
    /// and nothing else.
    ///
    /// Wrapping that secret from the new store goes as it goes from this one.
    /// The new store can be worked on while this one is free for others.
    pub fn entry(&self, key_id: &str) -> (only: KeyStore)
        ensures
            only@ == entry_of(self@, key_id@),
    {
        let mut only = KeyStore::new();
        match self.keys.get(key_id) {
            None => {},
            Some(secret) => {
                only.store_key(key_id, secret.clone());
            },
        }
        assert(only@ =~= entry_of(self@, key_id@));
        only
    }

    /// Wraps the secret named `key_id` under the RSA public key that
    /// `modulus` and `exponent` write, with the padding that `alg` names.
    pub fn wrap_under(
        &self,
        key_id: &str,
        alg: &str,
        modulus: &Vec<u8>,
        exponent: &Vec<u8>,
    ) -> (outcome: Result<WrappedKeyData, Error>)
        ensures
            wrap_step_outcome(
                wrap_step(self@, key_id@, alg@, modulus@, exponent@),
                modulus@,
                outcome,
            ),
    {
        match rsa_check_public_key(modulus, exponent) {
            Err(complaint) => {
                return Err(Error::Rsa(complaint));
            },
            Ok(()) => {},
        }
        let secret = match self.keys.get(key_id) {
            None => {
                return Err(Error::KeyStore(KeyStoreErrorKind::KeyNotFound));
            },
            Some(secret) => secret,
        };
        let padding = match select_padding(alg) {
            Err(e) => {
                return Err(e);
            },
            Ok(padding) => padding,
        };
        let encrypted = match padding {
            Padding::Pkcs1v15 => rsa_encrypt_pkcs1v15(modulus, exponent, secret),
            Padding::OaepSha256 => rsa_encrypt_oaep_sha256(modulus, exponent, secret),
        };
        proof {
            lemma_modulus_size_bound(modulus@);
        }
        let outcome = wrapped_key_from(encrypted);
        outcome
    }

    /// Wraps the secret named `key_id` under `wrapping_key`, for transit to
    /// the holder of the private key.
    pub fn wrap_key(&self, key_id: &str, wrapping_key: &PublicWrappingKey) -> (outcome: Result<
        WrappedKeyData,
        Error,
    >)
        ensures
            wrap_outcome(self@, key_id@, wrapping_key@, outcome),
    {
        if !same_text(wrapping_key.kty.as_str(), RSA_KEY_TYPE) {
            return Err(Error::KeyStore(KeyStoreErrorKind::UnsupportedWrappingKeyType));
        }
        let modulus = match base64url_decode(wrapping_key.n.as_str()) {
            Err(complaint) => {
                return Err(Error::Base64Decode(complaint));
            },
            Ok(modulus) => modulus,
        };
        let exponent = match base64url_decode(wrapping_key.e.as_str()) {
            Err(complaint) => {
                return Err(Error::Base64Decode(complaint));
            },
            Ok(exponent) => exponent,
        };
        self.wrap_under(key_id, wrapping_key.alg.as_str(), &modulus, &exponent)
    }
}

/// A number of at most `bits` binary digits is below 2^`bits`; here, with
/// 4096 digits, a modulus takes at most 512 bytes.
proof fn lemma_modulus_size_bound(modulus: Seq<u8>)
    requires
        bit_length(be_value(modulus)) <= 4096,
    ensures
        modulus_size(modulus) <= 512,
{
}

/// A wrapping key of a type other than RSA is refused for its type, whatever
/// else holds of the request: nothing is decoded and no key is built.
pub proof fn lemma_key_type_decides_first(
    secrets: Secrets,
    key_id: Seq<char>,
    wrapping_key: PublicWrappingKeyView,
    outcome: Result<WrappedKeyData, Error>,
)
    requires
        wrapping_key.kty != RSA_KEY_TYPE@,
        wrap_outcome(secrets, key_id, wrapping_key, outcome),
    ensures
        outcome matches Err(Error::KeyStore(KeyStoreErrorKind::UnsupportedWrappingKeyType)),
{
}

/// A name under which nothing is stored is refused as not found, where the
/// wrapping key is an RSA key that decodes and is accepted: the store is
/// looked into only then.
pub proof fn lemma_unknown_name_is_not_found(
    secrets: Secrets,
    key_id: Seq<char>,
    wrapping_key: PublicWrappingKeyView,
    outcome: Result<WrappedKeyData, Error>,
)
    requires
        !secrets.contains_key(key_id),
        wrapping_key.kty == RSA_KEY_TYPE@,
        base64url_decoding(wrapping_key.n) is Ok,
        base64url_decoding(wrapping_key.e) is Ok,
        rsa_public_key_accepted(
            base64url_decoding(wrapping_key.n)->Ok_0,
            base64url_decoding(wrapping_key.e)->Ok_0,
        ),
        wrap_outcome(secrets, key_id, wrapping_key, outcome),
    ensures
        outcome matches Err(Error::KeyStore(KeyStoreErrorKind::KeyNotFound)),
{
}

/// An algorithm name that selects no padding leads to no encryption: with an
/// accepted key and a stored secret the request is refused for its algorithm.
pub proof fn lemma_unknown_algorithm_is_refused(
    secrets: Secrets,
    key_id: Seq<char>,
    alg: Seq<char>,
    modulus: Seq<u8>,
    exponent: Seq<u8>,
    outcome: Result<WrappedKeyData, Error>,
)
    requires
        padding_named(alg) is None,
        rsa_public_key_accepted(modulus, exponent),
        secrets.contains_key(key_id),
        wrap_step_outcome(wrap_step(secrets, key_id, alg, modulus, exponent), modulus, outcome),
    ensures
        !(wrap_step(secrets, key_id, alg, modulus, exponent) is Encrypt),
        outcome matches Err(
            Error::KeyStore(KeyStoreErrorKind::UnsupportedWrappingKeyAlgorithm),
        ),
{
}

/// A wrapped key comes of an encryption and of nothing else: the wrapping
/// key was accepted, the secret is stored, the algorithm selects a padding
/// and the secret fits under it.
pub proof fn lemma_wrapped_key_is_encrypted(
    secrets: Secrets,
    key_id: Seq<char>,
    alg: Seq<char>,
    modulus: Seq<u8>,
    exponent: Seq<u8>,
    outcome: Result<WrappedKeyData, Error>,
)
    requires
        wrap_step_outcome(wrap_step(secrets, key_id, alg, modulus, exponent), modulus, outcome),
        outcome is Ok,
    ensures
        rsa_public_key_accepted(modulus, exponent),
        secrets.contains_key(key_id),
        padding_named(alg) matches Some(padding) && secrets[key_id].len() + padding.overhead()
            <= modulus_size(modulus),
{
}


/// Wrapping a secret goes by that secret alone: from a store that holds
/// only the secret of the given name, it ends as it does from the whole
/// store.
pub proof fn lemma_entry_wraps_alike(
    secrets: Secrets,
    key_id: Seq<char>,
    wrapping_key: PublicWrappingKeyView,
    outcome: Result<WrappedKeyData, Error>,
)
    ensures
        wrap_outcome(entry_of(secrets, key_id), key_id, wrapping_key, outcome) == wrap_outcome(
            secrets,
            key_id,
            wrapping_key,
            outcome,
        ),
{
}

} // verus!
