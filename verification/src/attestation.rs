//! Attestation results, as far as the broker reads them.
//!
//! A verification service answers evidence with an attestation result: a
//! signed set of claims with one appraisal for each part of the attested
//! environment. The broker keeps the claims as the JSON document that the
//! policy takes as its input, and of each appraisal the trust tier and the
//! evidence that the verifier annotated, which its diagnostics look at.

use crate::encoding::same_text;
use crate::error::Error;
use ear::{Algorithm, Ear};
use vstd::prelude::*;

verus! {

/// How far an appraised part of the environment can be trusted.
#[derive(Debug, Clone, Copy, PartialEq, Eq, Structural)]
pub enum TrustTier {
    /// The verifier asserts nothing.
    NoAssertion,
    /// The verifier affirms the part.
    Affirming,
    /// The verifier has reservations, or too little to go by.
    Warning,
    /// The verifier advises against trusting the part.
    Contraindicated,
}

/// One claim that the verifier took from the evidence and annotated.
#[derive(Debug)]
pub struct EvidenceClaim {
    /// The claim's name.
    pub name: String,
    /// The claim's value, as JSON text.
    pub value: String,
}

/// What an [`EvidenceClaim`] holds.
pub struct EvidenceClaimView {
    pub name: Seq<char>,
    pub value: Seq<char>,
}

impl View for EvidenceClaim {
    type V = EvidenceClaimView;

    open spec fn view(&self) -> EvidenceClaimView {
        EvidenceClaimView { name: self.name@, value: self.value@ }
    }
}

/// The appraisal of one part of the attested environment.
#[derive(Debug)]
pub struct Appraisal {
    /// The name of the part, such as `CCA_REALM`.
    pub name: String,
    /// The overall standing of the part.
    pub status: TrustTier,
    /// The annotated evidence, in the order of the claims' names.
    pub annotated_evidence: Vec<EvidenceClaim>,
}

/// What an [`Appraisal`] holds.
pub struct AppraisalView {
    pub name: Seq<char>,
    pub status: TrustTier,
    pub annotated_evidence: Seq<EvidenceClaimView>,
}

/// What a list of evidence claims holds.
pub open spec fn claims_view(claims: Seq<EvidenceClaim>) -> Seq<EvidenceClaimView> {
    claims.map_values(|claim: EvidenceClaim| claim@)
}

impl View for Appraisal {
    type V = AppraisalView;

    open spec fn view(&self) -> AppraisalView {
        AppraisalView {
            name: self.name@,
            status: self.status,
            annotated_evidence: claims_view(self.annotated_evidence@),
        }
    }
}

/// An attestation result whose signature has been verified.
#[derive(Debug)]
pub struct AttestationResult {
    /// The whole claims set, as a JSON document.
    pub claims: String,
    /// The appraisals, in the order of the parts' names.
    pub submods: Vec<Appraisal>,
}

/// What an [`AttestationResult`] holds.
pub struct AttestationResultView {
    pub claims: Seq<char>,
    pub submods: Seq<AppraisalView>,
}

/// What a list of appraisals holds.
pub open spec fn submods_view(submods: Seq<Appraisal>) -> Seq<AppraisalView> {
    submods.map_values(|appraisal: Appraisal| appraisal@)
}

impl View for AttestationResult {
    type V = AttestationResultView;

    open spec fn view(&self) -> AttestationResultView {
        AttestationResultView { claims: self.claims@, submods: submods_view(self.submods@) }
    }
}

/// The first of `submods` that has the given name, if one has.
pub open spec fn submod_named(submods: Seq<AppraisalView>, name: Seq<char>) -> Option<
    AppraisalView,
>
    decreases submods.len(),
{
    if submods.len() == 0 {
        None
    } else if submods[0].name == name {
        Some(submods[0])
    } else {
        submod_named(submods.drop_first(), name)
    }
}

/// The value of the first of `claims` that has the given name, if one has.
pub open spec fn claim_named(claims: Seq<EvidenceClaimView>, name: Seq<char>) -> Option<Seq<char>>
    decreases claims.len(),
{
    if claims.len() == 0 {
        None
    } else if claims[0].name == name {
        Some(claims[0].value)
    } else {
        claim_named(claims.drop_first(), name)
    }
}

impl Appraisal {
    /// The value of the annotated evidence claim of the given name, as JSON
    /// text.
    pub fn evidence(&self, name: &str) -> (found: Option<&String>)
        ensures
            match claim_named(self@.annotated_evidence, name@) {
                Some(value) => found matches Some(text) && text@ == value,
                None => found is None,
            },
    {
        let ghost claims = self@.annotated_evidence;
        assert(claims.subrange(0, claims.len() as int) =~= claims);
        let mut i: usize = 0;
        while i < self.annotated_evidence.len()
            invariant
                i <= self.annotated_evidence.len(),
                claims == claims_view(self.annotated_evidence@),
                claim_named(self@.annotated_evidence, name@) == claim_named(
                    claims.subrange(i as int, claims.len() as int),
                    name@,
                ),
            decreases self.annotated_evidence.len() - i,
        {
            let ghost rest = claims.subrange(i as int, claims.len() as int);
            assert(rest[0] == claims[i as int]);
            assert(rest.drop_first() =~= claims.subrange(i + 1, claims.len() as int));
            if same_text(self.annotated_evidence[i].name.as_str(), name) {
                return Some(&self.annotated_evidence[i].value);
            }
            i += 1;
        }
        None
    }
}

impl AttestationResult {
    /// The appraisal of the part of the given name.
    pub fn submod(&self, name: &str) -> (found: Option<&Appraisal>)
        ensures
            match submod_named(self@.submods, name@) {
                Some(appraisal) => found matches Some(a) && a@ == appraisal,
                None => found is None,
            },
    {
        let ghost submods = self@.submods;
        assert(submods.subrange(0, submods.len() as int) =~= submods);
        let mut i: usize = 0;
        while i < self.submods.len()
            invariant
                i <= self.submods.len(),
                submods == submods_view(self.submods@),
                submod_named(self@.submods, name@) == submod_named(
                    submods.subrange(i as int, submods.len() as int),
                    name@,
                ),
            decreases self.submods.len() - i,
        {
            let ghost rest = submods.subrange(i as int, submods.len() as int);
            assert(rest[0] == submods[i as int]);
            assert(rest.drop_first() =~= submods.subrange(i + 1, submods.len() as int));
            if same_text(self.submods[i].name.as_str(), name) {
                return Some(&self.submods[i]);
            }
            i += 1;
        }
        None
    }
}

/// The algorithm with which a token is signed.
#[derive(Debug, Clone, Copy, PartialEq, Eq, Structural)]
pub enum SignatureAlgorithm {
    PS256,
    PS384,
    PS512,
    ES256,
    ES384,
    ES512,
    EdDSA,
}

/// An attestation result of the `ear` crate.
#[verifier::external_type_specification]
#[verifier::external_body]
pub struct ExEar(Ear);

/// Reads an attestation result from a signed token, by `Ear::from_jwt_jwk`
/// with the given algorithm, named as the `ear` crate names it, and the
/// key's bytes. The signature is checked against the key, which is a JSON Web
/// Key; a token that does not parse or verify is refused, with the crate's
/// complaint as the error text. Whether a token verifies can depend on the
/// time of day; nothing is claimed of it.
#[verifier::external_body]
fn ear_from_jwt_jwk(token: &str, algorithm: SignatureAlgorithm, key: &str) -> Result<Ear, String> {
    let algorithm = match algorithm {
        SignatureAlgorithm::PS256 => Algorithm::PS256,
        SignatureAlgorithm::PS384 => Algorithm::PS384,
        SignatureAlgorithm::PS512 => Algorithm::PS512,
        SignatureAlgorithm::ES256 => Algorithm::ES256,
        SignatureAlgorithm::ES384 => Algorithm::ES384,
        SignatureAlgorithm::ES512 => Algorithm::ES512,
        SignatureAlgorithm::EdDSA => Algorithm::EdDSA,
    };
    Ear::from_jwt_jwk(token, algorithm, key.as_bytes()).map_err(|e| e.to_string())
}

/// The claims set as a JSON document, by `serde_json::to_string`. A result
/// that its own rules find invalid is refused, with the complaint as the
/// error text.
#[verifier::external_body]
fn ear_to_json(ear: &Ear) -> Result<String, String> {
    serde_json::to_string(ear).map_err(|e| e.to_string())
}

/// The names of the appraised parts: the keys of the field `submods`, in
/// their order.
#[verifier::external_body]
fn ear_submod_names(ear: &Ear) -> Vec<String> {
    ear.submods.keys().cloned().collect()
}

/// The field `status` of the appraisal filed under `submod` in the field
/// `submods`, tier for tier; `None` where nothing is filed under that name.
#[verifier::external_body]
fn ear_submod_status(ear: &Ear, submod: &str) -> Option<TrustTier> {
    ear.submods.get(submod).map(
        |appraisal|
            match appraisal.status {
                ear::TrustTier::None => TrustTier::NoAssertion,
                ear::TrustTier::Affirming => TrustTier::Affirming,
                ear::TrustTier::Warning => TrustTier::Warning,
                ear::TrustTier::Contraindicated => TrustTier::Contraindicated,
            },
    )
}

/// The names of the annotated evidence claims of the appraisal filed under
/// `submod`: the keys of its field `annotated_evidence`, in their order. The
/// list is empty where nothing is filed under that name.
#[verifier::external_body]
fn ear_evidence_names(ear: &Ear, submod: &str) -> Vec<String> {
    ear.submods.get(submod).map(
        |appraisal| appraisal.annotated_evidence.keys().cloned().collect(),
    ).unwrap_or_default()
}

/// The annotated evidence claim `claim` of the appraisal filed under
/// `submod`, written as JSON text by `serde_json::to_string`; `None` where
/// there is no such claim. A value that cannot be written as JSON gives the
/// complaint as the error text.
#[verifier::external_body]
fn ear_evidence_json(ear: &Ear, submod: &str, claim: &str) -> Option<Result<String, String>> {
    ear.submods.get(submod).and_then(|appraisal| appraisal.annotated_evidence.get(claim)).map(
        |value| serde_json::to_string(value).map_err(|e| e.to_string()),
    )
}

/// The annotated evidence of one appraised part.
fn read_evidence(ear: &Ear, submod: &str) -> (evidence: Result<Vec<EvidenceClaim>, Error>)
    ensures
        evidence matches Err(e) ==> e is Json,
{
    let names = ear_evidence_names(ear, submod);
    let mut claims: Vec<EvidenceClaim> = Vec::new();
    let mut i: usize = 0;
    while i < names.len()
        invariant
            i <= names.len(),
        decreases names.len() - i,
    {
        match ear_evidence_json(ear, submod, names[i].as_str()) {
            None => {},
            Some(Err(complaint)) => {
                return Err(Error::Json(complaint));
            },
            Some(Ok(value)) => {
                claims.push(EvidenceClaim { name: names[i].clone(), value });
            },
        }
        i += 1;
    }
    Ok(claims)
}

impl AttestationResult {
    /// Reads an attestation result from the token in which the verification
    /// service sent it, checking the token's ES256 signature against the
    /// service's key.
    ///
    /// There is no result without a valid signature: a token that does not
    /// parse or does not verify gives an EAR error. A result that cannot be
    /// written as JSON gives a JSON error.
    pub fn from_token(token: &str, verification_key: &str) -> (read: Result<
        AttestationResult,
        Error,
    >)
        ensures
            read matches Err(e) ==> e is Ear || e is Json,
    {
        let ear = match ear_from_jwt_jwk(token, SignatureAlgorithm::ES256, verification_key) {
            Err(complaint) => {
                return Err(Error::Ear(complaint));
            },
            Ok(ear) => ear,
        };
        let claims = match ear_to_json(&ear) {
            Err(complaint) => {
                return Err(Error::Json(complaint));
            },
            Ok(claims) => claims,
        };
        let names = ear_submod_names(&ear);
        let mut submods: Vec<Appraisal> = Vec::new();
        let mut i: usize = 0;
        while i < names.len()
            invariant
                i <= names.len(),
            decreases names.len() - i,
        {
            match ear_submod_status(&ear, names[i].as_str()) {
                None => {},
                Some(status) => {
                    let annotated_evidence = match read_evidence(&ear, names[i].as_str()) {
                        Err(e) => {
                            return Err(e);
                        },
                        Ok(evidence) => evidence,
                    };
                    submods.push(Appraisal { name: names[i].clone(), status, annotated_evidence });
                },
            }
            i += 1;
        }
        Ok(AttestationResult { claims, submods })
    }
}

} // verus!
