use ear::{Algorithm, Appraisal as EarAppraisal, Ear, Extensions, RawValue, VerifierID};
use keybroker::attestation::{Appraisal, AttestationResult, EvidenceClaim, TrustTier};
use keybroker::error::{Error, VerificationErrorKind};
use keybroker::verification::{
    after_evaluation, appraise, verify_with_veraison_instance, without_reference_values,
    CcaDiagnostics, EmitDiagnostic, Stage, Verifier, VerifierAction, VerifierEvent,
    NEW_SESSION_ENDPOINT, OUT_OF_TURN,
};
use base64::engine::general_purpose::URL_SAFE_NO_PAD;
use base64::Engine;
use openssl::bn::{BigNum, BigNumContext};
use openssl::ec::{EcGroup, EcKey};
use openssl::nid::Nid;
use openssl::pkey::PKey;
use std::collections::BTreeMap;

const CCA_MEDIA_TYPE: &str =
    "application/eat-collection; profile=\"http://arm.com/CCA-SSD/1.0.0\"";

const RIM: &str = "MRMUq3NiA1DPdYg0rlxl2ejC3H/r5ufZZUu+hk4wDUk=";

// A verification service's signing key, made for the occasion: the private
// half in PEM, the public half as a JSON Web Key.
struct Signer {
    signing_key: Vec<u8>,
    verification_key: String,
}

fn coordinate(number: &BigNum) -> String {
    let bytes = number.to_vec();
    let mut padded = vec![0u8; 32 - bytes.len()];
    padded.extend_from_slice(&bytes);
    URL_SAFE_NO_PAD.encode(padded)
}

fn new_signer() -> Signer {
    let group = EcGroup::from_curve_name(Nid::X9_62_PRIME256V1).expect("the curve P-256");
    let key = EcKey::generate(&group).expect("a key pair");
    let mut x = BigNum::new().unwrap();
    let mut y = BigNum::new().unwrap();
    let mut context = BigNumContext::new().unwrap();
    key.public_key()
        .affine_coordinates(&group, &mut x, &mut y, &mut context)
        .expect("the public point");
    let verification_key = format!(
        "{{\"kty\":\"EC\",\"crv\":\"P-256\",\"x\":\"{}\",\"y\":\"{}\"}}",
        coordinate(&x),
        coordinate(&y)
    );
    let signing_key = PKey::from_ec_key(key)
        .expect("a private key")
        .private_key_to_pem_pkcs8()
        .expect("the private key in PEM");
    Signer { signing_key, verification_key }
}

fn claim(name: &str, value: &str) -> EvidenceClaim {
    EvidenceClaim { name: name.to_string(), value: value.to_string() }
}

fn realm(status: TrustTier, evidence: Vec<EvidenceClaim>) -> Appraisal {
    Appraisal { name: "CCA_REALM".to_string(), status, annotated_evidence: evidence }
}

fn platform() -> Appraisal {
    Appraisal {
        name: "CCA_SSD_PLATFORM".to_string(),
        status: TrustTier::Affirming,
        annotated_evidence: vec![],
    }
}

fn claims_json(rim: &str) -> String {
    format!(
        "{{\"submods\":{{\"CCA_REALM\":{{\"ear.status\":\"warning\",\"ear.trustworthiness-vector\":{{\"instance-identity\":2}},\"ear.veraison.annotated-evidence\":{{\"cca-realm-initial-measurement\":\"{}\"}}}},\"CCA_SSD_PLATFORM\":{{\"ear.status\":\"affirming\"}}}}}}",
        rim
    )
}

fn result_with(submods: Vec<Appraisal>) -> AttestationResult {
    AttestationResult { claims: claims_json(RIM), submods }
}

fn good_result() -> AttestationResult {
    result_with(vec![
        realm(
            TrustTier::Warning,
            vec![
                claim("cca-realm-hash-algo-id", "\"sha-256\""),
                claim("cca-realm-initial-measurement", &format!("\"{}\"", RIM)),
            ],
        ),
        platform(),
    ])
}

fn reference_values(rim: &str) -> Option<String> {
    Some(format!("{{ \"reference-values\": [ \"{}\" ] }}", rim))
}

#[test]
fn diagnostics_keep_their_verbosity() {
    assert_eq!(CcaDiagnostics::new(0).verbosity(), 0);
    assert_eq!(CcaDiagnostics::new(3).verbosity(), 3);
    assert_eq!(CcaDiagnostics::new(255).verbosity(), 255);
}

#[test]
fn hint_names_the_challenge_and_the_measurement() {
    let diagnostics = CcaDiagnostics::new(0);
    let report = diagnostics.emit_no_reference_values(&1234567, &good_result());
    let hint = report.expect("a report").expect("a hint");
    assert_eq!(
        hint,
        "Known-good RIM values are missing. If you trust the client that submitted\n\
         evidence for challenge 1234567, you should restart the keybroker-server with the following\n\
         command-line option to populate it with known-good RIM values:\n\
         --reference-values <(echo '{ \"reference-values\": [ \"MRMUq3NiA1DPdYg0rlxl2ejC3H/r5ufZZUu+hk4wDUk=\" ] }')"
    );
}

#[test]
fn hint_for_the_largest_identifier() {
    let diagnostics = CcaDiagnostics::new(0);
    let hint = diagnostics
        .emit_no_reference_values(&u32::MAX, &good_result())
        .unwrap()
        .unwrap();
    assert!(hint.contains("evidence for challenge 4294967295, you should"));
}

#[test]
fn no_realm_is_a_failure() {
    let diagnostics = CcaDiagnostics::new(0);
    let report = diagnostics.emit_no_reference_values(&1, &result_with(vec![platform()]));
    match report {
        Err(Error::Verification(VerificationErrorKind::EARCCAError(detail))) => {
            assert_eq!(detail, "No CCA_REALM in the ear")
        }
        other => panic!("unexpected report {:?}", other),
    }
    let report = diagnostics.emit_no_reference_values(&1, &result_with(vec![]));
    assert!(matches!(
        report,
        Err(Error::Verification(VerificationErrorKind::EARCCAError(_)))
    ));
}

#[test]
fn realm_in_warning_without_measurement_is_a_failure() {
    let diagnostics = CcaDiagnostics::new(0);
    let result = result_with(vec![
        realm(TrustTier::Warning, vec![claim("cca-realm-hash-algo-id", "\"sha-256\"")]),
        platform(),
    ]);
    match diagnostics.emit_no_reference_values(&1, &result) {
        Err(Error::Verification(VerificationErrorKind::EARCCAError(detail))) => assert_eq!(
            detail,
            "No cca-realm-initial-measurement in the CCA_REALM annotated evidence claims"
        ),
        other => panic!("unexpected report {:?}", other),
    }
}

#[test]
fn realm_in_another_tier_gives_no_hint() {
    let diagnostics = CcaDiagnostics::new(0);
    for status in [TrustTier::NoAssertion, TrustTier::Affirming, TrustTier::Contraindicated] {
        let result = result_with(vec![realm(status, vec![]), platform()]);
        assert!(matches!(diagnostics.emit_no_reference_values(&1, &result), Ok(None)));
        let result = result_with(vec![
            realm(status, vec![claim("cca-realm-initial-measurement", "\"AAAA\"")]),
            platform(),
        ]);
        assert!(matches!(diagnostics.emit_no_reference_values(&1, &result), Ok(None)));
    }
}

#[test]
fn lookups_find_the_first_of_a_name() {
    let result = result_with(vec![
        platform(),
        realm(TrustTier::Warning, vec![claim("a", "1"), claim("b", "2"), claim("a", "3")]),
        realm(TrustTier::Affirming, vec![]),
    ]);
    let found = result.submod("CCA_REALM").expect("the realm is there");
    assert_eq!(found.status, TrustTier::Warning);
    assert_eq!(found.evidence("a").unwrap(), "1");
    assert_eq!(found.evidence("b").unwrap(), "2");
    assert!(found.evidence("c").is_none());
    assert!(result.submod("cca_realm").is_none());
    assert_eq!(result.submod("CCA_SSD_PLATFORM").unwrap().status, TrustTier::Affirming);
}

#[test]
fn unbound_media_type_is_not_appraised() {
    let diagnostics = CcaDiagnostics::new(0);
    let finding =
        appraise("text/plain", &1, &good_result(), &reference_values(RIM), &diagnostics);
    assert!(matches!(
        finding.outcome,
        Err(Error::Verification(VerificationErrorKind::PolicyNotFound))
    ));
    assert!(finding.hint.is_none());
    let finding = appraise("text/plain", &1, &good_result(), &None, &diagnostics);
    assert!(matches!(
        finding.outcome,
        Err(Error::Verification(VerificationErrorKind::PolicyNotFound))
    ));
    assert!(finding.hint.is_none());
}

#[test]
fn missing_reference_values_fail_with_a_hint() {
    let diagnostics = CcaDiagnostics::new(0);
    let finding = appraise(CCA_MEDIA_TYPE, &77, &good_result(), &None, &diagnostics);
    assert!(matches!(
        finding.outcome,
        Err(Error::Verification(VerificationErrorKind::NoReferenceValues))
    ));
    let hint = finding.hint.expect("a hint");
    assert!(hint.starts_with("Known-good RIM values are missing."));
    assert!(hint.contains("challenge 77,"));
    assert!(hint.ends_with("[ \"MRMUq3NiA1DPdYg0rlxl2ejC3H/r5ufZZUu+hk4wDUk=\" ] }')"));
}

#[test]
fn missing_reference_values_without_realm_are_missing_reference_values() {
    let diagnostics = CcaDiagnostics::new(0);
    let finding =
        appraise(CCA_MEDIA_TYPE, &77, &result_with(vec![platform()]), &None, &diagnostics);
    assert!(matches!(
        finding.outcome,
        Err(Error::Verification(VerificationErrorKind::NoReferenceValues))
    ));
    assert_eq!(finding.hint.unwrap(), "EAR CCA error: No CCA_REALM in the ear");
}

#[test]
fn failing_diagnostics_do_not_hide_the_missing_reference_values() {
    let finding = without_reference_values(Err(Error::Json("not serialisable".to_string())));
    assert!(matches!(
        finding.outcome,
        Err(Error::Verification(VerificationErrorKind::NoReferenceValues))
    ));
    assert_eq!(finding.hint.unwrap(), "not serialisable");
    let finding = without_reference_values(Ok(Some("a hint".to_string())));
    assert!(matches!(
        finding.outcome,
        Err(Error::Verification(VerificationErrorKind::NoReferenceValues))
    ));
    assert_eq!(finding.hint.unwrap(), "a hint");
    let finding = without_reference_values(Ok(None));
    assert!(matches!(
        finding.outcome,
        Err(Error::Verification(VerificationErrorKind::NoReferenceValues))
    ));
    assert!(finding.hint.is_none());
}

#[test]
fn evaluation_gives_the_verdict_of_its_result() {
    assert!(matches!(after_evaluation(Ok("true".to_string())).outcome, Ok(true)));
    assert!(matches!(after_evaluation(Ok("false".to_string())).outcome, Ok(false)));
    assert!(matches!(after_evaluation(Ok("\"true\"".to_string())).outcome, Ok(false)));
    let finding = after_evaluation(Err(Error::Policy("no such rule".to_string())));
    assert!(matches!(finding.outcome, Err(Error::Policy(_))));
    assert!(finding.hint.is_none());
}

#[test]
fn missing_reference_values_with_nothing_to_report() {
    let diagnostics = CcaDiagnostics::new(0);
    let result = result_with(vec![realm(TrustTier::Affirming, vec![]), platform()]);
    let finding = appraise(CCA_MEDIA_TYPE, &77, &result, &None, &diagnostics);
    assert!(matches!(
        finding.outcome,
        Err(Error::Verification(VerificationErrorKind::NoReferenceValues))
    ));
    assert!(finding.hint.is_none());
}

#[test]
fn matching_reference_values_verify() {
    let diagnostics = CcaDiagnostics::new(0);
    let finding =
        appraise(CCA_MEDIA_TYPE, &1, &good_result(), &reference_values(RIM), &diagnostics);
    assert!(matches!(finding.outcome, Ok(true)));
    assert!(finding.hint.is_none());
}

#[test]
fn other_reference_values_do_not_verify() {
    let diagnostics = CcaDiagnostics::new(0);
    let finding =
        appraise(CCA_MEDIA_TYPE, &1, &good_result(), &reference_values("AAAA"), &diagnostics);
    assert!(matches!(finding.outcome, Ok(false)));
    assert!(finding.hint.is_none());
}

#[test]
fn unreadable_reference_values_are_a_policy_error() {
    let diagnostics = CcaDiagnostics::new(0);
    let finding = appraise(
        CCA_MEDIA_TYPE,
        &1,
        &good_result(),
        &Some("no json".to_string()),
        &diagnostics,
    );
    assert!(matches!(finding.outcome, Err(Error::Policy(_))));
}

// Diagnostics of another flavour, which always have something to say.
struct Talkative;

impl EmitDiagnostic for Talkative {
    fn emit_no_reference_values(
        &self,
        challenge_id: &u32,
        _ear: &AttestationResult,
    ) -> Result<Option<String>, Error> {
        Ok(Some(format!("challenge {}", challenge_id)))
    }

    fn verbosity(&self) -> u8 {
        9
    }
}

#[test]
fn diagnostics_of_another_flavour_are_asked() {
    let finding = appraise(CCA_MEDIA_TYPE, &5, &result_with(vec![]), &None, &Talkative);
    assert!(matches!(
        finding.outcome,
        Err(Error::Verification(VerificationErrorKind::NoReferenceValues))
    ));
    assert_eq!(finding.hint.unwrap(), "challenge 5");
}

fn signed_token(signer: &Signer) -> String {
    let mut realm = EarAppraisal::new();
    realm.status = ear::TrustTier::Warning;
    realm
        .trust_vector
        .mut_by_name("instance-identity")
        .expect("a claim of the trust vector")
        .set(2);
    realm.annotated_evidence.insert(
        "cca-realm-initial-measurement".to_string(),
        RawValue::Text(RIM.to_string()),
    );
    realm
        .annotated_evidence
        .insert("cca-realm-hash-algo-id".to_string(), RawValue::Text("sha-256".to_string()));
    let mut platform = EarAppraisal::new();
    platform.status = ear::TrustTier::Affirming;
    let ear = Ear {
        profile: "tag:github.com,2023:veraison/ear".to_string(),
        iat: 1,
        vid: VerifierID {
            build: "vsts 0.0.1".to_string(),
            developer: "https://veraison-project.org".to_string(),
        },
        raw_evidence: None,
        nonce: None,
        submods: BTreeMap::from([
            ("CCA_REALM".to_string(), realm),
            ("CCA_SSD_PLATFORM".to_string(), platform),
        ]),
        extensions: Extensions::new(),
    };
    ear.sign_jwt_pem(Algorithm::ES256, &signer.signing_key).expect("a signed token")
}

#[test]
fn token_is_read_into_claims_and_appraisals() {
    let signer = new_signer();
    let result = AttestationResult::from_token(&signed_token(&signer), &signer.verification_key)
        .expect("a valid token");
    assert!(result.claims.contains("\"eat_profile\":\"tag:github.com,2023:veraison/ear\""));
    assert!(result.claims.contains("\"ear.status\":\"warning\""));
    assert_eq!(result.submods.len(), 2);
    assert_eq!(result.submods[0].name, "CCA_REALM");
    assert_eq!(result.submods[0].status, TrustTier::Warning);
    assert_eq!(result.submods[0].annotated_evidence.len(), 2);
    assert_eq!(result.submods[0].annotated_evidence[0].name, "cca-realm-hash-algo-id");
    assert_eq!(result.submods[0].annotated_evidence[0].value, "\"sha-256\"");
    assert_eq!(result.submods[0].annotated_evidence[1].name, "cca-realm-initial-measurement");
    assert_eq!(result.submods[0].annotated_evidence[1].value, format!("\"{}\"", RIM));
    assert_eq!(result.submods[1].name, "CCA_SSD_PLATFORM");
    assert_eq!(result.submods[1].status, TrustTier::Affirming);
    assert!(result.submods[1].annotated_evidence.is_empty());
}

#[test]
fn token_under_another_key_is_refused() {
    let signer = new_signer();
    let other = new_signer();
    let read = AttestationResult::from_token(&signed_token(&signer), &other.verification_key);
    assert!(matches!(read, Err(Error::Ear(_))));
}

#[test]
fn tampered_token_is_refused() {
    let signer = new_signer();
    let token = signed_token(&signer);
    let mut parts: Vec<String> = token.split('.').map(|part| part.to_string()).collect();
    assert_eq!(parts.len(), 3);
    let flipped = if parts[1].starts_with('e') { "f" } else { "e" };
    parts[1].replace_range(0..1, flipped);
    let read = AttestationResult::from_token(&parts.join("."), &signer.verification_key);
    assert!(matches!(read, Err(Error::Ear(_))));
}

#[test]
fn garbage_is_no_token() {
    let signer = new_signer();
    let key = &signer.verification_key;
    assert!(matches!(AttestationResult::from_token("", key), Err(Error::Ear(_))));
    assert!(matches!(AttestationResult::from_token("a.b.c", key), Err(Error::Ear(_))));
    assert!(matches!(
        AttestationResult::from_token(&signed_token(&signer), "no key"),
        Err(Error::Ear(_))
    ));
}

fn service() -> Verifier {
    Verifier { base_url: "http://veraison.example:8080".to_string(), root_certificate: None }
}

#[test]
fn verification_begins_with_discovery() {
    let verifier = Verifier {
        base_url: "https://veraison.example".to_string(),
        root_certificate: Some("/etc/ca.pem".to_string()),
    };
    let (verification, action) = verify_with_veraison_instance(
        &verifier,
        CCA_MEDIA_TYPE,
        &9,
        &[1, 2, 3],
        &[4, 5],
        &Some("{}".to_string()),
    );
    assert_eq!(verification.stage, Stage::Discovering);
    assert_eq!(verification.base_url, "https://veraison.example");
    assert_eq!(verification.root_certificate.as_deref(), Some("/etc/ca.pem"));
    assert_eq!(verification.media_type, CCA_MEDIA_TYPE);
    assert_eq!(verification.challenge_id, 9);
    assert_eq!(verification.challenge, vec![1, 2, 3]);
    assert_eq!(verification.evidence, vec![4, 5]);
    assert_eq!(verification.reference_values.as_deref(), Some("{}"));
    match action {
        VerifierAction::Discover { base_url, root_certificate, endpoint_name } => {
            assert_eq!(base_url, "https://veraison.example");
            assert_eq!(root_certificate.as_deref(), Some("/etc/ca.pem"));
            assert_eq!(endpoint_name, "newChallengeResponseSession");
            assert_eq!(endpoint_name, NEW_SESSION_ENDPOINT);
        }
        other => panic!("unexpected action {:?}", other),
    }
}

#[test]
fn verification_runs_to_a_positive_verdict() {
    let signer = new_signer();
    let diagnostics = CcaDiagnostics::new(0);
    let (mut verification, _) = verify_with_veraison_instance(
        &service(),
        CCA_MEDIA_TYPE,
        &9,
        &[1, 2, 3],
        &[4, 5],
        &reference_values(RIM),
    );
    let action = verification.advance(
        VerifierEvent::Discovered {
            endpoint: Some("/challenge-response/v1/newSession".to_string()),
            verification_key: signer.verification_key.clone(),
        },
        &diagnostics,
    );
    assert_eq!(verification.stage, Stage::OpeningSession);
    match action {
        VerifierAction::OpenSession { new_session_url, root_certificate, nonce } => {
            assert_eq!(
                new_session_url,
                "http://veraison.example:8080/challenge-response/v1/newSession"
            );
            assert!(root_certificate.is_none());
            assert_eq!(nonce, vec![1, 2, 3]);
        }
        other => panic!("unexpected action {:?}", other),
    }
    let action = verification.advance(
        VerifierEvent::SessionOpened {
            session_url: "http://veraison.example:8080/challenge-response/v1/session/1".to_string(),
        },
        &diagnostics,
    );
    assert_eq!(verification.stage, Stage::AwaitingResult);
    match action {
        VerifierAction::SubmitEvidence { session_url, media_type, evidence } => {
            assert_eq!(session_url, "http://veraison.example:8080/challenge-response/v1/session/1");
            assert_eq!(media_type, CCA_MEDIA_TYPE);
            assert_eq!(evidence, vec![4, 5]);
        }
        other => panic!("unexpected action {:?}", other),
    }
    let action = verification
        .advance(VerifierEvent::ResultReceived { ear_token: signed_token(&signer) }, &diagnostics);
    assert_eq!(verification.stage, Stage::Finished);
    match action {
        VerifierAction::Conclude(finding) => {
            assert!(matches!(finding.outcome, Ok(true)));
            assert!(finding.hint.is_none());
        }
        other => panic!("unexpected action {:?}", other),
    }
}

fn at_result(
    signer: &Signer,
    reference_values: Option<String>,
    media_type: &str,
) -> keybroker::verification::Verification {
    let diagnostics = CcaDiagnostics::new(0);
    let (mut verification, _) =
        verify_with_veraison_instance(&service(), media_type, &9, &[1], &[2], &reference_values);
    verification.advance(
        VerifierEvent::Discovered {
            endpoint: Some("/newSession".to_string()),
            verification_key: signer.verification_key.clone(),
        },
        &diagnostics,
    );
    verification
        .advance(VerifierEvent::SessionOpened { session_url: "s".to_string() }, &diagnostics);
    assert_eq!(verification.stage, Stage::AwaitingResult);
    verification
}

fn conclusion(action: VerifierAction) -> keybroker::verification::Finding {
    match action {
        VerifierAction::Conclude(finding) => finding,
        other => panic!("unexpected action {:?}", other),
    }
}

#[test]
fn verification_ends_negative_on_other_reference_values() {
    let signer = new_signer();
    let diagnostics = CcaDiagnostics::new(0);
    let mut verification = at_result(&signer, reference_values("AAAA"), CCA_MEDIA_TYPE);
    let finding = conclusion(
        verification
            .advance(VerifierEvent::ResultReceived { ear_token: signed_token(&signer) }, &diagnostics),
    );
    assert!(matches!(finding.outcome, Ok(false)));
}

#[test]
fn verification_without_reference_values_ends_with_the_hint() {
    let signer = new_signer();
    let diagnostics = CcaDiagnostics::new(0);
    let mut verification = at_result(&signer, None, CCA_MEDIA_TYPE);
    let finding = conclusion(
        verification
            .advance(VerifierEvent::ResultReceived { ear_token: signed_token(&signer) }, &diagnostics),
    );
    assert!(matches!(
        finding.outcome,
        Err(Error::Verification(VerificationErrorKind::NoReferenceValues))
    ));
    assert!(finding.hint.unwrap().contains("evidence for challenge 9,"));
    assert_eq!(verification.stage, Stage::Finished);
}

#[test]
fn verification_of_an_unbound_media_type_finds_no_policy() {
    let signer = new_signer();
    let diagnostics = CcaDiagnostics::new(0);
    let mut verification = at_result(&signer, reference_values(RIM), "text/plain");
    let finding = conclusion(
        verification
            .advance(VerifierEvent::ResultReceived { ear_token: signed_token(&signer) }, &diagnostics),
    );
    assert!(matches!(
        finding.outcome,
        Err(Error::Verification(VerificationErrorKind::PolicyNotFound))
    ));
}

#[test]
fn verification_fails_closed_on_a_bad_token() {
    let signer = new_signer();
    let diagnostics = CcaDiagnostics::new(0);
    let mut verification = at_result(&signer, reference_values(RIM), CCA_MEDIA_TYPE);
    let finding = conclusion(verification.advance(
        VerifierEvent::ResultReceived { ear_token: "not.a.token".to_string() },
        &diagnostics,
    ));
    assert!(matches!(finding.outcome, Err(Error::Ear(_))));
    assert!(finding.hint.is_none());
    assert_eq!(verification.stage, Stage::Finished);
}

#[test]
fn service_without_session_endpoint_ends_the_verification() {
    let diagnostics = CcaDiagnostics::new(0);
    let (mut verification, _) =
        verify_with_veraison_instance(&service(), CCA_MEDIA_TYPE, &9, &[1], &[2], &None);
    let finding = conclusion(verification.advance(
        VerifierEvent::Discovered {
            endpoint: None,
            verification_key: new_signer().verification_key,
        },
        &diagnostics,
    ));
    assert!(matches!(
        finding.outcome,
        Err(Error::Verification(VerificationErrorKind::NoChallengeResponseEndpoint))
    ));
    assert!(finding.hint.is_none());
    assert_eq!(verification.stage, Stage::Finished);
}

#[test]
fn failed_action_ends_the_verification_with_the_complaint() {
    let signer = new_signer();
    let diagnostics = CcaDiagnostics::new(0);
    let (mut verification, _) =
        verify_with_veraison_instance(&service(), CCA_MEDIA_TYPE, &9, &[1], &[2], &None);
    let finding = conclusion(verification.advance(
        VerifierEvent::Failed { complaint: "connection refused".to_string() },
        &diagnostics,
    ));
    match finding.outcome {
        Err(Error::VeraisonApi(text)) => assert_eq!(text, "connection refused"),
        other => panic!("unexpected outcome {:?}", other),
    }
    assert_eq!(verification.stage, Stage::Finished);

    let mut verification = at_result(&signer, None, CCA_MEDIA_TYPE);
    let finding = conclusion(
        verification
            .advance(VerifierEvent::Failed { complaint: "timed out".to_string() }, &diagnostics),
    );
    match finding.outcome {
        Err(Error::VeraisonApi(text)) => assert_eq!(text, "timed out"),
        other => panic!("unexpected outcome {:?}", other),
    }
}

#[test]
fn event_out_of_turn_ends_the_verification() {
    let signer = new_signer();
    let diagnostics = CcaDiagnostics::new(0);
    let (mut verification, _) =
        verify_with_veraison_instance(&service(), CCA_MEDIA_TYPE, &9, &[1], &[2], &None);
    let finding = conclusion(
        verification
            .advance(VerifierEvent::ResultReceived { ear_token: signed_token(&signer) }, &diagnostics),
    );
    match finding.outcome {
        Err(Error::VeraisonApi(text)) => {
            assert_eq!(text, "The verification service answered out of turn.");
            assert_eq!(text, OUT_OF_TURN);
        }
        other => panic!("unexpected outcome {:?}", other),
    }
    assert_eq!(verification.stage, Stage::Finished);

    // nothing is taken once the verification has ended, not even a failure
    let finding = conclusion(
        verification.advance(VerifierEvent::Failed { complaint: "late".to_string() }, &diagnostics),
    );
    match finding.outcome {
        Err(Error::VeraisonApi(text)) => assert_eq!(text, OUT_OF_TURN),
        other => panic!("unexpected outcome {:?}", other),
    }

    let mut verification = at_result(&signer, None, CCA_MEDIA_TYPE);
    let finding = conclusion(
        verification
            .advance(VerifierEvent::SessionOpened { session_url: "s".to_string() }, &diagnostics),
    );
    assert!(matches!(finding.outcome, Err(Error::VeraisonApi(_))));
}
