//! Verification of evidence against a remote verification service.
//!
//! Verification is an exchange in three round trips: the service is asked
//! what it offers, a challenge-response session is opened with the
//! challenge's nonce, and the evidence is submitted to the session. The
//! service answers with a signed attestation result, which is then appraised
//! here, by policy.
//!
//! The round trips are not made here. [`Verification`] holds how far the
//! exchange has come and decides each next step: it hands out a
//! [`VerifierAction`] to perform and takes a [`VerifierEvent`] that says how it
//! went. One attempt is made; nothing is retried.

use crate::attestation::{
    claim_named, submod_named, AttestationResult, AttestationResultView, TrustTier,
};
use crate::error::{Error, ErrorView, VerificationErrorKind, VerificationErrorKindView};
use crate::policy::{
    binding_for, is_positive, policy_for, preparable, rego_eval, verdict_of,
};
use crate::text::{decimal, decimal_text};
use vstd::prelude::*;

verus! {

/// The name under which a verification service offers to open a
/// challenge-response session.
pub const NEW_SESSION_ENDPOINT: &'static str = "newChallengeResponseSession";

/// The part of a CCA attestation result that stands for the realm.
pub const CCA_REALM: &'static str = "CCA_REALM";

/// The annotated evidence claim that holds a realm's initial measurement.
pub const CCA_REALM_INITIAL_MEASUREMENT: &'static str = "cca-realm-initial-measurement";

/// What the operator is told where a CCA attestation result has no realm.
pub const NO_CCA_REALM: &'static str = "No CCA_REALM in the ear";

/// What the operator is told where a realm comes without its initial
/// measurement.
pub const NO_INITIAL_MEASUREMENT: &'static str =
    "No cca-realm-initial-measurement in the CCA_REALM annotated evidence claims";

/// The hint on missing reference values, up to the challenge's identifier.
pub const HINT_HEAD: &'static str =
    "Known-good RIM values are missing. If you trust the client that submitted\nevidence for challenge ";

/// The hint on missing reference values, from the challenge's identifier to
/// the measurement.
pub const HINT_MIDDLE: &'static str =
    ", you should restart the keybroker-server with the following\ncommand-line option to populate it with known-good RIM values:\n--reference-values <(echo '{ \"reference-values\": [ ";

/// The hint on missing reference values, after the measurement.
pub const HINT_TAIL: &'static str = " ] }')";

/// The complaint with which a verification ends where an event comes that
/// its stage does not wait for.
pub const OUT_OF_TURN: &'static str = "The verification service answered out of turn.";

/// What a diagnostic reports: a hint for the operator, if there is one to
/// give, or a failure.
pub type Report = Result<Option<String>, Error>;

/// What a [`Report`] holds.
pub open spec fn report_view(report: Report) -> Result<Option<Seq<char>>, ErrorView> {
    match report {
        Ok(Some(hint)) => Ok(Some(hint@)),
        Ok(None) => Ok(None),
        Err(e) => Err(e@),
    }
}

/// The diagnostics of one flavour of attestation result.
pub trait EmitDiagnostic {
    /// Looks into an attestation result that cannot be appraised for want of
    /// reference values, and reports what the operator should be told.
    fn emit_no_reference_values(&self, challenge_id: &u32, ear: &AttestationResult) -> Report;

    /// How much the operator wants to be told; 0 is the least.
    fn verbosity(&self) -> u8;
}

/// The diagnostics of CCA attestation results.
pub struct CcaDiagnostics {
    verbosity: u8,
}

/// The hint that the reference values are missing, for the operator who
/// trusts the client that redeemed the given challenge: how to supply the
/// realm's initial measurement, given as JSON text, as the known-good one.
pub open spec fn missing_reference_values_hint(challenge_id: u32, measurement: Seq<char>) -> Seq<
    char,
> {
    HINT_HEAD@ + decimal_text(challenge_id as nat) + HINT_MIDDLE@ + measurement + HINT_TAIL@
}

/// What the CCA diagnostics report of an attestation result that comes
/// without reference values.
///
/// A result without a realm is a failure. A realm that does not stand at
/// `Warning` gives nothing to report. One that does must carry its initial
/// measurement, and the report is the hint to supply that measurement as a
/// reference value.
pub open spec fn cca_no_reference_values_report(
    challenge_id: u32,
    ear: AttestationResultView,
) -> Result<Option<Seq<char>>, ErrorView> {
    match submod_named(ear.submods, CCA_REALM@) {
        None => Err(ErrorView::Verification(VerificationErrorKindView::EARCCAError(NO_CCA_REALM@))),
        Some(realm) => if realm.status == TrustTier::Warning {
            match claim_named(realm.annotated_evidence, CCA_REALM_INITIAL_MEASUREMENT@) {
                None => Err(
                    ErrorView::Verification(
                        VerificationErrorKindView::EARCCAError(NO_INITIAL_MEASUREMENT@),
                    ),
                ),
                Some(measurement) => Ok(
                    Some(missing_reference_values_hint(challenge_id, measurement)),
                ),
            }
        } else {
            Ok(None)
        },
    }
}

impl CcaDiagnostics {
    /// The verbosity the diagnostics were made with.
    pub closed spec fn verbosity_spec(&self) -> u8 {
        self.verbosity
    }

    /// Diagnostics for an operator who wants to be told that much.
    pub fn new(verbosity: u8) -> (diagnostics: Self)
        ensures
            diagnostics.verbosity_spec() == verbosity,
    {
        Self { verbosity }
    }
}

impl EmitDiagnostic for CcaDiagnostics {
    fn emit_no_reference_values(&self, challenge_id: &u32, ear: &AttestationResult) -> (report:
        Report)
        ensures
            report_view(report) == cca_no_reference_values_report(*challenge_id, ear@),
    {
        match ear.submod(CCA_REALM) {
            None => Err(
                Error::Verification(VerificationErrorKind::EARCCAError(NO_CCA_REALM.to_owned())),
            ),
            Some(realm) => {
                if realm.status == TrustTier::Warning {
                    match realm.evidence(CCA_REALM_INITIAL_MEASUREMENT) {
                        None => Err(
                            Error::Verification(
                                VerificationErrorKind::EARCCAError(
                                    NO_INITIAL_MEASUREMENT.to_owned(),
                                ),
                            ),
                        ),
                        Some(measurement) => {
                            let mut hint = HINT_HEAD.to_owned();
                            hint.append(decimal(*challenge_id as u64).as_str());
                            hint.append(HINT_MIDDLE);
                            hint.append(measurement.as_str());
                            hint.append(HINT_TAIL);
                            Ok(Some(hint))
                        },
                    }
                } else {
                    Ok(None)
                }
            },
        }
    }

    fn verbosity(&self) -> (verbosity: u8)
        ensures
            verbosity == self.verbosity_spec(),
    {
        self.verbosity
    }
}

/// How a verification ended, and what the operator should be told of it.
#[derive(Debug)]
pub struct Finding {
    /// Whether the evidence is verified and in policy, or why that could not
    /// be found out.
    pub outcome: Result<bool, Error>,
    /// A hint for the operator, to be logged.
    pub hint: Option<String>,
}

/// What a [`Finding`] holds.
pub struct FindingView {
    pub outcome: Result<bool, ErrorView>,
    pub hint: Option<Seq<char>>,
}

/// What an optional text holds.
pub open spec fn optional_text(text: Option<String>) -> Option<Seq<char>> {
    match text {
        Some(text) => Some(text@),
        None => None,
    }
}

impl View for Finding {
    type V = FindingView;

    open spec fn view(&self) -> FindingView {
        FindingView {
            outcome: match self.outcome {
                Ok(verified) => Ok(verified),
                Err(e) => Err(e@),
            },
            hint: optional_text(self.hint),
        }
    }
}

/// The finding that is a failure, with nothing for the operator.
pub open spec fn failure(e: ErrorView) -> FindingView {
    FindingView { outcome: Err(e), hint: None }
}

/// The finding where there are no reference values, given what the
/// diagnostics report: the want of reference values, whatever they report.
/// The operator is given their hint or, where they fail, the sentence that
/// describes their failure.
pub open spec fn finding_without_reference_values(
    report: Result<Option<Seq<char>>, ErrorView>,
) -> FindingView {
    FindingView {
        outcome: Err(ErrorView::Verification(VerificationErrorKindView::NoReferenceValues)),
        hint: match report {
            Ok(hint) => hint,
            Err(e) => Some(e.message_text()),
        },
    }
}

/// The finding where the policy has been evaluated: the verdict of its rule,
/// or the failure of the evaluation, with nothing for the operator.
pub open spec fn finding_of_evaluation(evaluated: Result<String, Error>) -> FindingView {
    FindingView {
        outcome: match evaluated {
            Ok(result) => Ok(is_positive(result@)),
            Err(e) => Err(e@),
        },
        hint: None,
    }
}

/// Whether `finding` is what the appraisal of an attestation result may come
/// to.
///
/// Evidence of a media type that no policy is bound to is not appraised.
/// Without reference values there is no appraisal either: the diagnostics
/// are asked for their report, and the finding is the want of reference
/// values, as [`finding_without_reference_values`] says. With reference
/// values the bound policy decides: its rule is evaluated on the claims,
/// against the reference values, and the finding is the verdict of some
/// result that this evaluation may give, or its failure.
pub open spec fn appraised<DE: EmitDiagnostic>(
    media_type: Seq<char>,
    challenge_id: u32,
    ear: AttestationResult,
    reference_values: Option<String>,
    diagnostics: DE,
    finding: Finding,
) -> bool {
    match binding_for(media_type) {
        None => finding@ == failure(
            ErrorView::Verification(VerificationErrorKindView::PolicyNotFound),
        ),
        Some(binding) => match reference_values {
            None => exists|report: Report|
                {
                    &&& #[trigger] call_ensures(
                        DE::emit_no_reference_values,
                        (&diagnostics, &challenge_id, &ear),
                        report,
                    )
                    &&& finding@ == finding_without_reference_values(report_view(report))
                },
            Some(values) => exists|
                policy: &str,
                rule: &str,
                reference_values: &str,
                claims: &str,
                evaluated: Result<String, Error>,
            |
                {
                    &&& policy@ == binding.policy
                    &&& rule@ == binding.rule
                    &&& reference_values@ == values@
                    &&& claims@ == ear.claims@
                    &&& #[trigger] call_ensures(
                        rego_eval,
                        (policy, rule, reference_values, claims),
                        evaluated,
                    )
                    &&& finding@ == finding_of_evaluation(evaluated)
                },
        },
    }
}

/// The finding where there are no reference values, given what the
/// diagnostics report.
pub fn without_reference_values(report: Report) -> (finding: Finding)
    ensures
        finding@ == finding_without_reference_values(report_view(report)),
{
    let hint = match report {
        Err(e) => Some(e.message()),
        Ok(hint) => hint,
    };
    Finding { outcome: Err(Error::Verification(VerificationErrorKind::NoReferenceValues)), hint }
}

/// The finding where the policy has been evaluated.
pub fn after_evaluation(evaluated: Result<String, Error>) -> (finding: Finding)
    ensures
        finding@ == finding_of_evaluation(evaluated),
{
    Finding { outcome: verdict_of(evaluated), hint: None }
}

/// Appraises an attestation result for evidence of the given media type,
/// against the reference values if there are any.
pub fn appraise<DE: EmitDiagnostic>(
    media_type: &str,
    challenge_id: &u32,
    ear: &AttestationResult,
    reference_values: &Option<String>,
    diagnostics: &DE,
) -> (finding: Finding)
    ensures
        appraised(media_type@, *challenge_id, *ear, *reference_values, *diagnostics, finding),
{
    let binding = match policy_for(media_type) {
        None => {
            return Finding {
                outcome: Err(Error::Verification(VerificationErrorKind::PolicyNotFound)),
                hint: None,
            };
        },
        Some(binding) => binding,
    };
    match reference_values {
        None => {
            let report = diagnostics.emit_no_reference_values(challenge_id, ear);
            without_reference_values(report)
        },
        Some(values) => {
            let evaluated = rego_eval(
                binding.policy,
                binding.rule,
                values.as_str(),
                ear.claims.as_str(),
            );
            after_evaluation(evaluated)
        },
    }
}

/// Where the verification service is found.
#[derive(Debug)]
pub struct Verifier {
    /// The base of the service's addresses.
    pub base_url: String,
    /// The file name of a root certificate to trust when talking to the
    /// service, if the system's own are not to be used.
    pub root_certificate: Option<String>,
}

/// How far a verification has come.
#[derive(Debug, Clone, Copy, PartialEq, Eq, Structural)]
pub enum Stage {
    /// The service has been asked what it offers.
    Discovering,
    /// The service has been asked to open a session.
    OpeningSession,
    /// The evidence has been submitted.
    AwaitingResult,
    /// The verification has ended.
    Finished,
}

/// The next thing to do in a verification.
#[derive(Debug)]
pub enum VerifierAction {
    /// Ask the service at `base_url` what it offers, and under which relative
    /// address it offers what is called `endpoint_name`.
    Discover { base_url: String, root_certificate: Option<String>, endpoint_name: String },
    /// Open a challenge-response session at `new_session_url`, seeded with
    /// `nonce`.
    OpenSession { new_session_url: String, root_certificate: Option<String>, nonce: Vec<u8> },
    /// Submit `evidence`, of type `media_type`, to the session at
    /// `session_url`.
    SubmitEvidence { session_url: String, media_type: String, evidence: Vec<u8> },
    /// Nothing more: the verification has ended as the finding says.
    Conclude(Finding),
}

/// How the last action went.
#[derive(Debug)]
pub enum VerifierEvent {
    /// The service has said what it offers: the relative address of the
    /// endpoint that was asked for, if it has one, and the key that verifies
    /// the service's signatures, as a JSON Web Key.
    Discovered { endpoint: Option<String>, verification_key: String },
    /// The session is open, at `session_url`.
    SessionOpened { session_url: String },
    /// The service has answered the evidence with a signed attestation
    /// result.
    ResultReceived { ear_token: String },
    /// The action failed; `complaint` says how.
    Failed { complaint: String },
}

/// One verification of one piece of evidence.
#[derive(Debug)]
pub struct Verification {
    /// How far the verification has come.
    pub stage: Stage,
    /// The base of the service's addresses.
    pub base_url: String,
    /// The root certificate to trust, if one is named.
    pub root_certificate: Option<String>,
    /// The media type of the evidence.
    pub media_type: String,
    /// The identifier of the challenge that is being redeemed.
    pub challenge_id: u32,
    /// The challenge's nonce.
    pub challenge: Vec<u8>,
    /// The evidence.
    pub evidence: Vec<u8>,
    /// The known-good reference values, as a JSON document, if there are any.
    pub reference_values: Option<String>,
    /// The key that verifies the service's signatures, once discovered.
    pub verification_key: String,
}

/// A copy of an optional text.
pub fn clone_optional_text(text: &Option<String>) -> (copy: Option<String>)
    ensures
        optional_text(copy) == optional_text(*text),
{
    match text {
        Some(text) => Some(text.clone()),
        None => None,
    }
}

impl Verification {
    /// Whether two verifications are of the same evidence, for the same
    /// challenge, against the same service and reference values.
    pub open spec fn same_request(self, other: Verification) -> bool {
        &&& self.base_url@ == other.base_url@
        &&& optional_text(self.root_certificate) == optional_text(other.root_certificate)
        &&& self.media_type@ == other.media_type@
        &&& self.challenge_id == other.challenge_id
        &&& self.challenge@ == other.challenge@
        &&& self.evidence@ == other.evidence@
        &&& optional_text(self.reference_values) == optional_text(other.reference_values)
    }

    /// Whether `finding` may end this verification once the service's
    /// attestation result has arrived.
    ///
    /// Verification fails closed. A token that does not parse or whose
    /// signature does not verify ends it with that failure; any other token
    /// holds an attestation result, and the finding is what the appraisal of
    /// that result comes to.
    pub open spec fn concluded<DE: EmitDiagnostic>(self, diagnostics: DE, finding: Finding) -> bool {
        ||| finding.outcome matches Err(e) && (e is Ear || e is Json) && finding.hint is None
        ||| exists|ear: AttestationResult| #[trigger]
            appraised(
                self.media_type@,
                self.challenge_id,
                ear,
                self.reference_values,
                diagnostics,
                finding,
            )
    }

    /// Whether `action` and the state `after` are the step that the event
    /// calls for in the state `self`.
    ///
    /// What is being verified never changes. Discovery of a session endpoint
    /// leads to opening a session at the base address followed by the
    /// endpoint's relative address, with the challenge's nonce; discovery of
    /// none ends the verification. An open session leads to submitting the
    /// evidence to it. The service's result ends the verification as its
    /// appraisal says. A failed action ends it with the service's complaint,
    /// and so does an event that the stage does not wait for, with
    /// [`OUT_OF_TURN`].
    pub open spec fn stepped<DE: EmitDiagnostic>(
        self,
        event: VerifierEvent,
        diagnostics: DE,
        after: Verification,
        action: VerifierAction,
    ) -> bool {
        &&& after.same_request(self)
        &&& match (self.stage, event) {
            (Stage::Discovering, VerifierEvent::Discovered { endpoint: None, verification_key }) => {
                &&& after.stage == Stage::Finished
                &&& action matches VerifierAction::Conclude(finding)
                &&& finding@ == failure(
                    ErrorView::Verification(
                        VerificationErrorKindView::NoChallengeResponseEndpoint,
                    ),
                )
            },
            (
                Stage::Discovering,
                VerifierEvent::Discovered { endpoint: Some(endpoint), verification_key },
            ) => {
                &&& after.stage == Stage::OpeningSession
                &&& after.verification_key@ == verification_key@
                &&& action matches VerifierAction::OpenSession {
                    new_session_url,
                    root_certificate,
                    nonce,
                }
                &&& new_session_url@ == self.base_url@ + endpoint@
                &&& optional_text(root_certificate) == optional_text(self.root_certificate)
                &&& nonce@ == self.challenge@
            },
            (Stage::OpeningSession, VerifierEvent::SessionOpened { session_url }) => {
                &&& after.stage == Stage::AwaitingResult
                &&& after.verification_key@ == self.verification_key@
                &&& action matches VerifierAction::SubmitEvidence {
                    session_url: submit_to,
                    media_type,
                    evidence,
                }
                &&& submit_to@ == session_url@
                &&& media_type@ == self.media_type@
                &&& evidence@ == self.evidence@
            },
            (Stage::AwaitingResult, VerifierEvent::ResultReceived { ear_token }) => {
                &&& after.stage == Stage::Finished
                &&& action matches VerifierAction::Conclude(finding)
                &&& self.concluded(diagnostics, finding)
            },
            (Stage::Discovering, VerifierEvent::Failed { complaint })
            | (Stage::OpeningSession, VerifierEvent::Failed { complaint })
            | (Stage::AwaitingResult, VerifierEvent::Failed { complaint }) => {
                &&& after.stage == Stage::Finished
                &&& action matches VerifierAction::Conclude(finding)
                &&& finding@ == failure(ErrorView::VeraisonApi(complaint@))
            },
            _ => {
                &&& after.stage == Stage::Finished
                &&& action matches VerifierAction::Conclude(finding)
                &&& finding@ == failure(ErrorView::VeraisonApi(OUT_OF_TURN@))
            },
        }
    }

    /// Ends the verification with a failure.
    fn fail(&mut self, e: Error) -> (action: VerifierAction)
        ensures
            final(self).same_request(*old(self)),
            final(self).stage == Stage::Finished,
            action matches VerifierAction::Conclude(finding) && finding@ == failure(e@),
    {
        self.stage = Stage::Finished;
        VerifierAction::Conclude(Finding { outcome: Err(e), hint: None })
    }

    /// Takes how the last action went, and decides the next.
    pub fn advance<DE: EmitDiagnostic>(&mut self, event: VerifierEvent, diagnostics: &DE) -> (action:
        VerifierAction)
        ensures
            old(self).stepped(event, *diagnostics, *final(self), action),
    {
        match event {
            VerifierEvent::Failed { complaint } => {
                match self.stage {
                    Stage::Finished => self.fail(Error::VeraisonApi(OUT_OF_TURN.to_owned())),
                    _ => self.fail(Error::VeraisonApi(complaint)),
                }
            },
            VerifierEvent::Discovered { endpoint, verification_key } => {
                match self.stage {
                    Stage::Discovering => match endpoint {
                        None => self.fail(
                            Error::Verification(VerificationErrorKind::NoChallengeResponseEndpoint),
                        ),
                        Some(endpoint) => {
                            let mut new_session_url = self.base_url.clone();
                            new_session_url.append(endpoint.as_str());
                            self.verification_key = verification_key;
                            self.stage = Stage::OpeningSession;
                            VerifierAction::OpenSession {
                                new_session_url,
                                root_certificate: clone_optional_text(&self.root_certificate),
                                nonce: self.challenge.clone(),
                            }
                        },
                    },
                    _ => self.fail(Error::VeraisonApi(OUT_OF_TURN.to_owned())),
                }
            },
            VerifierEvent::SessionOpened { session_url } => {
                match self.stage {
                    Stage::OpeningSession => {
                        self.stage = Stage::AwaitingResult;
                        VerifierAction::SubmitEvidence {
                            session_url,
                            media_type: self.media_type.clone(),
                            evidence: self.evidence.clone(),
                        }
                    },
                    _ => self.fail(Error::VeraisonApi(OUT_OF_TURN.to_owned())),
                }
            },
            VerifierEvent::ResultReceived { ear_token } => {
                match self.stage {
                    Stage::AwaitingResult => {
                        self.stage = Stage::Finished;
                        let finding = match AttestationResult::from_token(
                            ear_token.as_str(),
                            self.verification_key.as_str(),
                        ) {
                            Err(e) => Finding { outcome: Err(e), hint: None },
                            Ok(ear) => {
                                let finding = appraise(
                                    self.media_type.as_str(),
                                    &self.challenge_id,
                                    &ear,
                                    &self.reference_values,
                                    diagnostics,
                                );
                                assert(appraised(
                                    self.media_type@,
                                    self.challenge_id,
                                    ear,
                                    self.reference_values,
                                    *diagnostics,
                                    finding,
                                ));
                                finding
                            },
                        };
                        VerifierAction::Conclude(finding)
                    },
                    _ => self.fail(Error::VeraisonApi(OUT_OF_TURN.to_owned())),
                }
            },
        }
    }
}

/// Begins the verification of `evidence`, which is of type `media_type` and
/// answers the challenge `challenge_id` with the nonce `challenge`, against
/// the verification service that `verifier` names.
///
/// The first thing to do is to ask the service under which address it opens
/// challenge-response sessions.
pub fn verify_with_veraison_instance(
    verifier: &Verifier,
    media_type: &str,
    challenge_id: &u32,
    challenge: &[u8],
    evidence: &[u8],
    reference_values: &Option<String>,
) -> (begun: (Verification, VerifierAction))
    ensures
        begun.0.stage == Stage::Discovering,
        begun.0.base_url@ == verifier.base_url@,
        optional_text(begun.0.root_certificate) == optional_text(verifier.root_certificate),
        begun.0.media_type@ == media_type@,
        begun.0.challenge_id == *challenge_id,
        begun.0.challenge@ == challenge@,
        begun.0.evidence@ == evidence@,
        optional_text(begun.0.reference_values) == optional_text(*reference_values),
        begun.1 matches VerifierAction::Discover { base_url, root_certificate, endpoint_name }
            && base_url@ == verifier.base_url@ && optional_text(root_certificate) == optional_text(
            verifier.root_certificate,
        ) && endpoint_name@ == NEW_SESSION_ENDPOINT@,
{
    let verification = Verification {
        stage: Stage::Discovering,
        base_url: verifier.base_url.clone(),
        root_certificate: clone_optional_text(&verifier.root_certificate),
        media_type: media_type.to_owned(),
        challenge_id: *challenge_id,
        challenge: vstd::slice::slice_to_vec(challenge),
        evidence: vstd::slice::slice_to_vec(evidence),
        reference_values: clone_optional_text(reference_values),
        verification_key: String::new(),
    };
    let action = VerifierAction::Discover {
        base_url: verifier.base_url.clone(),
        root_certificate: clone_optional_text(&verifier.root_certificate),
        endpoint_name: NEW_SESSION_ENDPOINT.to_owned(),
    };
    (verification, action)
}


impl Stage {
    /// How many steps a verification has behind it at the least when it is
    /// at this stage.
    pub open spec fn rank(self) -> nat {
        match self {
            Stage::Discovering => 0,
            Stage::OpeningSession => 1,
            Stage::AwaitingResult => 2,
            Stage::Finished => 3,
        }
    }
}

/// Without reference values the finding is the want of them, whatever the
/// diagnostics report and whatever the attestation result holds: no policy is
/// evaluated, and there is no verdict.
pub proof fn lemma_no_verdict_without_reference_values<DE: EmitDiagnostic>(
    media_type: Seq<char>,
    challenge_id: u32,
    ear: AttestationResult,
    diagnostics: DE,
    finding: Finding,
)
    requires
        binding_for(media_type) is Some,
        appraised(media_type, challenge_id, ear, None, diagnostics, finding),
    ensures
        finding@.outcome == Err::<bool, ErrorView>(
            ErrorView::Verification(VerificationErrorKindView::NoReferenceValues),
        ),
{
}

/// Evidence is found verified only by a policy: a finding with a verdict
/// comes of evidence whose media type a policy is bound to, appraised against
/// reference values. Where either is missing, the finding is a failure.
pub proof fn lemma_verdict_needs_policy_and_reference_values<DE: EmitDiagnostic>(
    media_type: Seq<char>,
    challenge_id: u32,
    ear: AttestationResult,
    reference_values: Option<String>,
    diagnostics: DE,
    finding: Finding,
)
    requires
        appraised(media_type, challenge_id, ear, reference_values, diagnostics, finding),
        finding.outcome is Ok,
    ensures
        binding_for(media_type) is Some,
        reference_values is Some,
        finding.hint is None,
{
}

/// Where the bound policy is no Rego module, the reference values are no
/// JSON object or the claims are no JSON document, the finding is a policy
/// error and never a verdict.
pub proof fn lemma_unreadable_gives_no_verdict<DE: EmitDiagnostic>(
    media_type: Seq<char>,
    challenge_id: u32,
    ear: AttestationResult,
    reference_values: String,
    diagnostics: DE,
    finding: Finding,
)
    requires
        binding_for(media_type) matches Some(binding) && !preparable(
            binding.policy,
            reference_values@,
            ear.claims@,
        ),
        appraised(media_type, challenge_id, ear, Some(reference_values), diagnostics, finding),
    ensures
        finding.outcome matches Err(e) && e is Policy,
{
}

/// A verification never goes back and never stays: every step takes it to a
/// later stage, and a step that gives nothing more to do takes it to the
/// last. So a verification ends after three steps at the most, and nothing
/// is tried twice.
pub proof fn lemma_verification_advances<DE: EmitDiagnostic>(
    before: Verification,
    event: VerifierEvent,
    diagnostics: DE,
    after: Verification,
    action: VerifierAction,
)
    requires
        before.stepped(event, diagnostics, after, action),
    ensures
        after.same_request(before),
        before.stage != Stage::Finished ==> after.stage.rank() > before.stage.rank(),
        action is Conclude <==> after.stage == Stage::Finished,
        !(action is Discover),
{
}

/// A verification that has ended stays ended: whatever comes is out of turn.
pub proof fn lemma_finished_is_final<DE: EmitDiagnostic>(
    before: Verification,
    event: VerifierEvent,
    diagnostics: DE,
    after: Verification,
    action: VerifierAction,
)
    requires
        before.stage == Stage::Finished,
        before.stepped(event, diagnostics, after, action),
    ensures
        after.stage == Stage::Finished,
        action matches VerifierAction::Conclude(finding) && finding@ == failure(
            ErrorView::VeraisonApi(OUT_OF_TURN@),
        ),
{
}

/// A verification that ends with a verdict has been through every stage:
/// only the appraisal of the service's attestation result gives one.
pub proof fn lemma_verdict_needs_attestation_result<DE: EmitDiagnostic>(
    before: Verification,
    event: VerifierEvent,
    diagnostics: DE,
    after: Verification,
    action: VerifierAction,
)
    requires
        before.stepped(event, diagnostics, after, action),
        action matches VerifierAction::Conclude(finding) && finding.outcome is Ok,
    ensures
        before.stage == Stage::AwaitingResult,
        event is ResultReceived,
        binding_for(before.media_type@) is Some,
        before.reference_values is Some,
{
}


} // verus!
