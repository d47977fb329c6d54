//! The two requests of the key release protocol.
//!
//! A client first asks for a key and is given a challenge. It then submits
//! evidence against the challenge. The challenge is redeemed by the attempt,
//! whatever comes of it; the evidence is verified; and where the verdict is
//! positive the key is released, wrapped under the key that the client named
//! in its first request.
//!
//! Every refusal reads the same to the client but for its detail.

use crate::challenge::{issued, lookup, Challenge, ChallengeTable, ChallengeView, Challenger};
use crate::common::{
    texts, AttestationChallenge, AttestationChallengeView, BackgroundCheckKeyRequest,
    ErrorInformation, ErrorInformationView, PublicWrappingKeyView, WrappedKeyData,
};
use crate::encoding::{base64url_decode, base64url_decoding, base64url_encode, base64url_encoding};
use crate::error::Error;
use crate::keystore::{entry_of, lemma_entry_wraps_alike, wrap_outcome, KeyStore, Secrets};
use crate::text::{
    decimal, decimal_text, decimal_value, digit_value, lemma_decimal_round_trip,
    lemma_decimal_text_is_digits,
};
use vstd::prelude::*;

verus! {

/// The type of every refusal.
pub const ATTESTATION_FAILURE: &'static str = "AttestationFailure";

/// The evidence media type that challenges invite.
pub const ACCEPTED_MEDIA_TYPE: &'static str =
    "application/eat-collection; profile=http://arm.com/CCA-SSD/1.0.0";

/// The path under which evidence is submitted, up to the challenge's
/// identifier.
pub const EVIDENCE_PATH: &'static str = "/keys/v1/evidence/";

/// The media type of evidence that is submitted without one.
pub const DEFAULT_CONTENT_TYPE: &'static str = "text/plain";

/// The detail of the refusal of evidence for a challenge that is not live.
pub const UNKNOWN_CHALLENGE: &'static str =
    "The challenge identifier did not match any issued challenge.";

/// The detail of the refusal of evidence that is verified but not in policy.
pub const NOT_IN_POLICY: &'static str = "The attestation result is not in policy.";

/// The detail of the refusal of evidence that could not be verified.
pub const NO_ATTESTATION_RESULT: &'static str = "No attestation result was obtained.";

/// The detail of the refusal where the evidence is in policy but the key
/// cannot be wrapped.
pub const KEY_NOT_RELEASED: &'static str = "The requested key could not be released.";

/// The broker's answer to a request.
#[derive(Debug)]
pub enum Reply {
    /// A challenge has been created. `location` is where evidence for it is
    /// to be submitted.
    Created { location: String, challenge: AttestationChallenge },
    /// The key is released, wrapped.
    Released(WrappedKeyData),
    /// The request is refused.
    Forbidden(ErrorInformation),
    /// No challenge can be created for now: every identifier is taken.
    Unavailable,
}

/// What a [`Reply`] holds.
pub enum ReplyView {
    Created { location: Seq<char>, challenge: AttestationChallengeView },
    Released(Seq<char>),
    Forbidden(ErrorInformationView),
    Unavailable,
}

impl View for Reply {
    type V = ReplyView;

    open spec fn view(&self) -> ReplyView {
        match self {
            Reply::Created { location, challenge } => ReplyView::Created {
                location: location@,
                challenge: challenge@,
            },
            Reply::Released(wrapped) => ReplyView::Released(wrapped@),
            Reply::Forbidden(information) => ReplyView::Forbidden(information@),
            Reply::Unavailable => ReplyView::Unavailable,
        }
    }
}

/// The refusal with the given detail.
pub open spec fn refusal(detail: Seq<char>) -> ReplyView {
    ReplyView::Forbidden(ErrorInformationView { error_type: ATTESTATION_FAILURE@, detail })
}

/// The answer to the request in which `challenge` was issued, by a broker
/// that is reached at `endpoint`: where to submit the evidence, the nonce in
/// base64url text, and the one media type that is accepted.
pub open spec fn creation(endpoint: Seq<char>, challenge: ChallengeView) -> ReplyView {
    ReplyView::Created {
        location: endpoint + EVIDENCE_PATH@ + decimal_text(challenge.challenge_id as nat),
        challenge: AttestationChallengeView {
            challenge: base64url_encoding(challenge.challenge_value),
            accept: seq![ACCEPTED_MEDIA_TYPE@],
        },
    }
}

impl Reply {
    /// The HTTP status of the answer.
    pub open spec fn status_spec(&self) -> u16 {
        match self {
            Reply::Created { .. } => 201,
            Reply::Released(_) => 200,
            Reply::Forbidden(_) => 403,
            Reply::Unavailable => 503,
        }
    }

    /// The HTTP status of the answer: 201 for a challenge, 200 for a released
    /// key, 403 for every refusal, 503 where no challenge can be created.
    #[verifier::when_used_as_spec(status_spec)]
    pub fn status(&self) -> (status: u16)
        ensures
            status == self.status_spec(),
    {
        match self {
            Reply::Created { .. } => 201,
            Reply::Released(_) => 200,
            Reply::Forbidden(_) => 403,
            Reply::Unavailable => 503,
        }
    }
}

/// The refusal with the given detail.
pub fn forbidden(detail: &str) -> (reply: Reply)
    ensures
        reply@ == refusal(detail@),
{
    Reply::Forbidden(
        ErrorInformation { error_type: ATTESTATION_FAILURE.to_owned(), detail: detail.to_owned() },
    )
}

/// The media type that a request declares its body to have, or
/// [`DEFAULT_CONTENT_TYPE`] where it declares none.
pub fn content_type_or_default(content_type: Option<&str>) -> (media_type: String)
    ensures
        media_type@ == match content_type {
            Some(declared) => declared@,
            None => DEFAULT_CONTENT_TYPE@,
        },
{
    match content_type {
        Some(declared) => declared.to_owned(),
        None => DEFAULT_CONTENT_TYPE.to_owned(),
    }
}

/// Whether `reply` and the table `after` are what a request for the key
/// named `key_id` may be answered with on the table `before`.
///
/// Wherever an identifier is free a challenge is issued, and the answer says
/// where to submit the evidence for it. Where none is, nothing is issued and
/// the answer is that none can be.
pub open spec fn key_requested(
    before: ChallengeTable,
    endpoint: Seq<char>,
    key_id: Seq<char>,
    wrapping_key: PublicWrappingKeyView,
    mock_challenge: bool,
    reply: ReplyView,
    after: ChallengeTable,
) -> bool {
    if before.len() < u32::MAX {
        exists|challenge: ChallengeView|
            {
                &&& #[trigger] issued(
                    before,
                    key_id,
                    wrapping_key,
                    mock_challenge,
                    challenge,
                    after,
                )
                &&& reply == creation(endpoint, challenge)
            }
    } else {
        after == before && reply == ReplyView::Unavailable
    }
}

/// Answers a request for the key named `key_id`: issues a challenge and says
/// where to submit the evidence for it.
///
/// Whether there is a key of that name is not looked at here.
pub fn request_key(
    challenger: &mut Challenger,
    endpoint: &str,
    key_id: &str,
    key_request: &BackgroundCheckKeyRequest,
    mock_challenge: bool,
) -> (reply: Reply)
    requires
        old(challenger).wf(),
    ensures
        final(challenger).wf(),
        final(challenger).is_verbose() == old(challenger).is_verbose(),
        key_requested(
            old(challenger)@,
            endpoint@,
            key_id@,
            key_request@,
            mock_challenge,
            reply@,
            final(challenger)@,
        ),
{
    let challenge = match challenger.try_create_challenge(
        key_id,
        &key_request.pubkey,
        mock_challenge,
    ) {
        None => {
            return Reply::Unavailable;
        },
        Some(challenge) => challenge,
    };
    let attestation_challenge = AttestationChallenge {
        challenge: base64url_encode(&challenge.challenge_value),
        accept: vec![ACCEPTED_MEDIA_TYPE.to_owned()],
    };
    let mut location = endpoint.to_owned();
    location.append(EVIDENCE_PATH);
    location.append(decimal(challenge.challenge_id as u64).as_str());
    let reply = Reply::Created { location, challenge: attestation_challenge };
    proof {
        assert(texts(attestation_challenge.accept@) =~= seq![ACCEPTED_MEDIA_TYPE@]);
        assert(issued(
            old(challenger)@,
            key_id@,
            key_request@,
            mock_challenge,
            challenge@,
            challenger@,
        ));
        assert(reply@ == creation(endpoint@, challenge@));
    }
    reply
}

/// A request for a key is answered with a challenge wherever an identifier
/// is free: the status is 201, the location names the challenge that was
/// issued, and that challenge is live with the key name and the wrapping key
/// of the request and the nonce that the answer carries.
pub proof fn lemma_key_request_is_answered(
    before: ChallengeTable,
    endpoint: Seq<char>,
    key_id: Seq<char>,
    wrapping_key: PublicWrappingKeyView,
    mock_challenge: bool,
    reply: Reply,
    after: ChallengeTable,
)
    requires
        before.len() < u32::MAX,
        key_requested(before, endpoint, key_id, wrapping_key, mock_challenge, reply@, after),
    ensures
        reply.status_spec() == 201,
        reply@ matches ReplyView::Created { location, challenge } && exists|id: u32|
            {
                &&& id != 0
                &&& decimal_value(trailing_segment(location)) == Some(id as nat)
                &&& #[trigger] lookup(after, id) matches Some(live)
                &&& live.key_id == key_id
                &&& live.wrapping_key == wrapping_key
                &&& challenge.challenge == base64url_encoding(live.challenge_value)
            },
{
    let issued_challenge = choose|challenge: ChallengeView|
        {
            &&& #[trigger] issued(before, key_id, wrapping_key, mock_challenge, challenge, after)
            &&& reply@ == creation(endpoint, challenge)
        };
    lemma_location_names_challenge(endpoint, issued_challenge);
    assert(lookup(after, issued_challenge.challenge_id) == Some(issued_challenge));
}

/// A redeemed challenge, and the evidence that was submitted against it.
#[derive(Debug)]
pub struct Redemption {
    /// The challenge, which is no longer live.
    pub challenge: Challenge,
    /// The evidence, decoded.
    pub evidence: Vec<u8>,
}

/// How an attempt at redemption begins.
pub enum RedemptionStart {
    /// The challenge is not live: nothing changes, and the client is told so.
    Unknown,
    /// The challenge has been redeemed, but the evidence does not decode:
    /// there is nothing to verify.
    Undecodable { rest: ChallengeTable },
    /// The challenge has been redeemed, and the evidence is ready to be
    /// verified.
    Ready { rest: ChallengeTable, challenge: ChallengeView, evidence: Seq<u8> },
}

/// How the attempt to redeem the challenge `challenge_id` of `table` with
/// the given evidence, in base64url text, begins.
///
/// A live challenge is deleted by the attempt, before the evidence is so
/// much as decoded.
pub open spec fn redemption_start(
    table: ChallengeTable,
    challenge_id: u32,
    evidence_base64: Seq<char>,
) -> RedemptionStart {
    match lookup(table, challenge_id) {
        None => RedemptionStart::Unknown,
        Some(challenge) => match base64url_decoding(evidence_base64) {
            Err(_) => RedemptionStart::Undecodable { rest: table.remove(challenge_id) },
            Ok(evidence) => RedemptionStart::Ready {
                rest: table.remove(challenge_id),
                challenge,
                evidence,
            },
        },
    }
}

/// Begins the redemption of a challenge: takes the challenge out of the
/// table, so that it cannot be redeemed again, and decodes the evidence.
///
/// What is returned is either the challenge and the evidence, to be
/// verified, or the refusal to send.
pub fn begin_redemption(
    challenger: &mut Challenger,
    challenge_id: u32,
    evidence_base64: &str,
) -> (begun: Result<Redemption, Reply>)
    requires
        old(challenger).wf(),
    ensures
        final(challenger).wf(),
        final(challenger).is_verbose() == old(challenger).is_verbose(),
        match redemption_start(old(challenger)@, challenge_id, evidence_base64@) {
            RedemptionStart::Unknown => {
                &&& final(challenger)@ == old(challenger)@
                &&& begun matches Err(reply)
                &&& reply@ == refusal(UNKNOWN_CHALLENGE@)
            },
            RedemptionStart::Undecodable { rest } => {
                &&& final(challenger)@ == rest
                &&& begun matches Err(reply)
                &&& reply@ == refusal(NO_ATTESTATION_RESULT@)
            },
            RedemptionStart::Ready { rest, challenge, evidence } => {
                &&& final(challenger)@ == rest
                &&& begun matches Ok(redemption)
                &&& redemption.challenge@ == challenge
                &&& redemption.evidence@ == evidence
            },
        },
{
    let challenge = match challenger.get_challenge(challenge_id) {
        Err(_) => {
            return Err(forbidden(UNKNOWN_CHALLENGE));
        },
        Ok(challenge) => challenge,
    };
    let deleted = challenger.delete_challenge(challenge_id);
    assert(deleted is Ok);
    match base64url_decode(evidence_base64) {
        Err(_) => Err(forbidden(NO_ATTESTATION_RESULT)),
        Ok(evidence) => Ok(Redemption { challenge, evidence }),
    }
}

/// The answer that ends a redemption whose evidence is in policy: the
/// wrapped key, where wrapping gave one, and a refusal where it did not.
pub open spec fn release(wrapped: Result<WrappedKeyData, Error>) -> ReplyView {
    match wrapped {
        Ok(key) => ReplyView::Released(key@),
        Err(_) => refusal(KEY_NOT_RELEASED@),
    }
}

/// Whether `reply` may end the redemption of `challenge`, given what the
/// verification of the evidence came to.
///
/// A key is released on a positive verdict and on nothing else; it is the
/// key that the challenge names, wrapped under the key that the challenge
/// holds. A negative verdict and a failed verification are refused, each with
/// its own detail.
pub open spec fn redemption_end(
    secrets: Secrets,
    challenge: ChallengeView,
    verification: Result<bool, Error>,
    reply: ReplyView,
) -> bool {
    match verification {
        Ok(true) => exists|wrapped: Result<WrappedKeyData, Error>|
            {
                &&& #[trigger] wrap_outcome(
                    secrets,
                    challenge.key_id,
                    challenge.wrapping_key,
                    wrapped,
                )
                &&& reply == release(wrapped)
            },
        Ok(false) => reply == refusal(NOT_IN_POLICY@),
        Err(_) => reply == refusal(NO_ATTESTATION_RESULT@),
    }
}

/// Ends a redemption: releases the key that the challenge names if the
/// evidence was found in policy, and refuses otherwise.
pub fn finish_redemption(
    keystore: &KeyStore,
    challenge: &Challenge,
    verification: &Result<bool, Error>,
) -> (reply: Reply)
    ensures
        redemption_end(keystore@, challenge@, *verification, reply@),
{
    match verification {
        Ok(verified) => {
            if *verified {
                let wrapped = keystore.wrap_key(
                    challenge.key_id.as_str(),
                    &challenge.wrapping_key,
                );
                let reply = match wrapped {
                    Ok(key) => Reply::Released(key),
                    Err(_) => forbidden(KEY_NOT_RELEASED),
                };
                proof {
                    assert(wrap_outcome(
                        keystore@,
                        challenge@.key_id,
                        challenge@.wrapping_key,
                        wrapped,
                    ));
                    assert(reply@ == release(wrapped));
                }
                reply
            } else {
                forbidden(NOT_IN_POLICY)
            }
        },
        Err(_) => forbidden(NO_ATTESTATION_RESULT),
    }
}

/// What follows the last `/` of a path; the whole path where it has none.
pub open spec fn trailing_segment(path: Seq<char>) -> Seq<char>
    decreases path.len(),
{
    if path.len() == 0 || path.last() == '/' {
        Seq::empty()
    } else {
        trailing_segment(path.drop_last()).push(path.last())
    }
}

/// A text without `/` that is put behind a `/` is the trailing segment of
/// what results.
pub proof fn lemma_trailing_segment(front: Seq<char>, segment: Seq<char>)
    requires
        front.len() > 0,
        front.last() == '/',
        forall|i: int| 0 <= i < segment.len() ==> segment[i] != '/',
    ensures
        trailing_segment(front + segment) == segment,
    decreases segment.len(),
{
    let path = front + segment;
    if segment.len() == 0 {
        assert(path =~= front);
    } else {
        assert(path.last() == segment.last());
        assert(path.drop_last() =~= front + segment.drop_last());
        lemma_trailing_segment(front, segment.drop_last());
        assert(segment.drop_last().push(segment.last()) =~= segment);
    }
}

/// The location that a key request is answered with names the challenge
/// that was issued: its trailing segment, read as a decimal number, is the
/// challenge's identifier.
pub proof fn lemma_location_names_challenge(endpoint: Seq<char>, challenge: ChallengeView)
    ensures
        creation(endpoint, challenge) matches ReplyView::Created { location, .. }
            && decimal_value(trailing_segment(location)) == Some(challenge.challenge_id as nat),
{
    let id = challenge.challenge_id as nat;
    let front = endpoint + EVIDENCE_PATH@;
    reveal_strlit("/keys/v1/evidence/");
    assert(front.last() == '/');
    lemma_decimal_text_is_digits(id);
    assert forall|i: int| 0 <= i < decimal_text(id).len() implies decimal_text(id)[i] != '/' by {
        assert(digit_value(decimal_text(id)[i]) is Some);
    }
    lemma_trailing_segment(front, decimal_text(id));
    lemma_decimal_round_trip(id);
}

/// A challenge is redeemed by the first attempt, whatever the evidence: to
/// every later attempt it is unknown, whatever the evidence.
pub proof fn lemma_redeemed_challenge_is_unknown(
    table: ChallengeTable,
    challenge_id: u32,
    first_evidence: Seq<char>,
    later_evidence: Seq<char>,
)
    requires
        lookup(table, challenge_id) is Some,
    ensures
        match redemption_start(table, challenge_id, first_evidence) {
            RedemptionStart::Unknown => false,
            RedemptionStart::Undecodable { rest } => redemption_start(
                rest,
                challenge_id,
                later_evidence,
            ) is Unknown,
            RedemptionStart::Ready { rest, .. } => redemption_start(
                rest,
                challenge_id,
                later_evidence,
            ) is Unknown,
        },
{
}

/// A key is released only after a positive verdict, and only where the key
/// store wrapped it: no other end of a redemption hands out a key.
pub proof fn lemma_release_needs_positive_verdict(
    secrets: Secrets,
    challenge: ChallengeView,
    verification: Result<bool, Error>,
    reply: ReplyView,
)
    requires
        redemption_end(secrets, challenge, verification, reply),
        reply is Released,
    ensures
        verification matches Ok(true),
        exists|key: WrappedKeyData|
            reply == ReplyView::Released(key@) && #[trigger] wrap_outcome(
                secrets,
                challenge.key_id,
                challenge.wrapping_key,
                Ok(key),
            ),
{
    let wrapped = choose|wrapped: Result<WrappedKeyData, Error>|
        {
            &&& #[trigger] wrap_outcome(secrets, challenge.key_id, challenge.wrapping_key, wrapped)
            &&& reply == release(wrapped)
        };
    assert(wrapped is Ok);
    let key = wrapped->Ok_0;
    assert(wrap_outcome(secrets, challenge.key_id, challenge.wrapping_key, Ok(key)));
}


/// A redemption ends alike from a store that holds only the secret that the
/// challenge names as from the whole store: the key can be wrapped from a copy
/// of that one secret while the store is free for others.
pub proof fn lemma_entry_redeems_alike(
    secrets: Secrets,
    challenge: ChallengeView,
    verification: Result<bool, Error>,
    reply: ReplyView,
)
    ensures
        redemption_end(entry_of(secrets, challenge.key_id), challenge, verification, reply)
            == redemption_end(secrets, challenge, verification, reply),
{
    let only = entry_of(secrets, challenge.key_id);
    if redemption_end(only, challenge, verification, reply) && verification matches Ok(true) {
        let wrapped = choose|wrapped: Result<WrappedKeyData, Error>|
            {
                &&& #[trigger] wrap_outcome(
                    only,
                    challenge.key_id,
                    challenge.wrapping_key,
                    wrapped,
                )
                &&& reply == release(wrapped)
            };
        lemma_entry_wraps_alike(secrets, challenge.key_id, challenge.wrapping_key, wrapped);
        assert(wrap_outcome(secrets, challenge.key_id, challenge.wrapping_key, wrapped));
    }
    if redemption_end(secrets, challenge, verification, reply) && verification matches Ok(true) {
        let wrapped = choose|wrapped: Result<WrappedKeyData, Error>|
            {
                &&& #[trigger] wrap_outcome(
                    secrets,
                    challenge.key_id,
                    challenge.wrapping_key,
                    wrapped,
                )
                &&& reply == release(wrapped)
            };
        lemma_entry_wraps_alike(secrets, challenge.key_id, challenge.wrapping_key, wrapped);
        assert(wrap_outcome(only, challenge.key_id, challenge.wrapping_key, wrapped));
    }
}

} // verus!
