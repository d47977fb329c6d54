//! Single-use attestation challenges.
//!
//! A challenge is issued when a client asks for a key. It records what the
//! client asked for and the nonce that the client's evidence must incorporate,
//! under an identifier that no other live challenge has. A challenge lives
//! until the first attempt to redeem it.

use crate::common::{PublicWrappingKey, PublicWrappingKeyView};
use crate::error::{ChallengeErrorKind, Error, ErrorView};
use rand::rngs::StdRng;
use rand::{Rng, SeedableRng};
use std::collections::HashMap;
use vstd::prelude::*;
use vstd::set_lib::{lemma_int_range, lemma_len_subset, lemma_map_size, set_int_range};

verus! {

/// The random number generator of the `rand` crate that a [`Challenger`]
/// draws identifiers and nonces from.
#[verifier::external_type_specification]
#[verifier::external_body]
pub struct ExStdRng(StdRng);

/// The length in bytes of every nonce that is issued.
pub const NONCE_LENGTH: usize = 64;

/// How many identifiers are drawn at random before the least free one is
/// taken instead.
pub const MAX_RANDOM_DRAWS: u32 = 64;

/// The nonce of the published CCA example token, issued in place of a random
/// one when a challenge is created for a mocked client.
pub const CCA_EXAMPLE_TOKEN_NONCE: [u8; 64] = [
    0x6e, 0x86, 0xd6, 0xd9, 0x7c, 0xc7, 0x13, 0xbc, 0x6d, 0xd4, 0x3d, 0xbc, 0xe4, 0x91, 0xa6, 0xb4,
    0x03, 0x11, 0xc0, 0x27, 0xa8, 0xbf, 0x85, 0xa3, 0x9d, 0xa6, 0x3e, 0x9c, 0xe4, 0x4c, 0x13, 0x2a,
    0x8a, 0x11, 0x9d, 0x29, 0x6f, 0xae, 0x6a, 0x69, 0x99, 0xe9, 0xbf, 0x3e, 0x44, 0x71, 0xb0, 0xce,
    0x01, 0x24, 0x5d, 0x88, 0x94, 0x24, 0xc3, 0x1e, 0x89, 0x79, 0x3b, 0x3b, 0x1d, 0x6b, 0x15, 0x04,
];

/// One challenge: its nonce, and what the client asked for when it was issued.
#[derive(Debug)]
pub struct Challenge {
    /// The challenge's identifier, unique among the live challenges of one
    /// broker and never zero.
    pub challenge_id: u32,
    /// The name of the key the client wants.
    pub key_id: String,
    /// The key under which the client wants it wrapped.
    pub wrapping_key: PublicWrappingKey,
    /// The nonce that the evidence must incorporate.
    pub challenge_value: Vec<u8>,
}

/// What a [`Challenge`] holds.
pub struct ChallengeView {
    pub challenge_id: u32,
    pub key_id: Seq<char>,
    pub wrapping_key: PublicWrappingKeyView,
    pub challenge_value: Seq<u8>,
}

impl View for Challenge {
    type V = ChallengeView;

    open spec fn view(&self) -> ChallengeView {
        ChallengeView {
            challenge_id: self.challenge_id,
            key_id: self.key_id@,
            wrapping_key: self.wrapping_key@,
            challenge_value: self.challenge_value@,
        }
    }
}

impl Clone for Challenge {
    fn clone(&self) -> (copy: Self)
        ensures
            copy@ == self@,
    {
        Challenge {
            challenge_id: self.challenge_id,
            key_id: self.key_id.clone(),
            wrapping_key: self.wrapping_key.clone(),
            challenge_value: self.challenge_value.clone(),
        }
    }
}

/// A generator seeded from the operating system's entropy, by
/// `StdRng::from_entropy`. Nothing is claimed of its state.
#[verifier::external_body]
fn rng_from_entropy() -> StdRng {
    StdRng::from_entropy()
}

/// The next 32-bit value of the generator, by `Rng::gen`. Any value may come.
#[verifier::external_body]
fn random_u32(rng: &mut StdRng) -> u32 {
    rng.gen()
}

/// Overwrites every byte of `buffer` with the generator's output, by
/// `Rng::fill` on the buffer as a slice. The buffer keeps its length; any
/// bytes may come.
#[verifier::external_body]
fn fill_random(rng: &mut StdRng, buffer: &mut Vec<u8>)
    ensures
        final(buffer)@.len() == old(buffer)@.len(),
{
    rng.fill(&mut buffer[..]);
}

/// The nonce issued to a mocked client.
pub open spec fn mock_nonce() -> Seq<u8> {
    CCA_EXAMPLE_TOKEN_NONCE@
}

/// The table of live challenges as contracts see it: each live challenge
/// under its identifier.
pub type ChallengeTable = Map<u32, ChallengeView>;

/// What a lookup of `challenge_id` in `table` finds.
pub open spec fn lookup(table: ChallengeTable, challenge_id: u32) -> Option<ChallengeView> {
    if table.contains_key(challenge_id) {
        Some(table[challenge_id])
    } else {
        None
    }
}

/// Whether `challenge` may be what is issued for `key_id` and
/// `wrapping_key` on the table `before`, leaving the table `after`.
///
/// The identifier is not zero and was free, the new challenge is the one
/// thing added to the table, it records what was asked for, and its nonce has
/// [`NONCE_LENGTH`] bytes: those of the example token for a mocked client.
pub open spec fn issued(
    before: ChallengeTable,
    key_id: Seq<char>,
    wrapping_key: PublicWrappingKeyView,
    mock_challenge: bool,
    challenge: ChallengeView,
    after: ChallengeTable,
) -> bool {
    &&& challenge.challenge_id != 0
    &&& !before.contains_key(challenge.challenge_id)
    &&& after == before.insert(challenge.challenge_id, challenge)
    &&& challenge.key_id == key_id
    &&& challenge.wrapping_key == wrapping_key
    &&& challenge.challenge_value.len() == NONCE_LENGTH
    &&& mock_challenge ==> challenge.challenge_value == mock_nonce()
}

/// The table that deleting `challenge_id` from `table` leaves, where that
/// challenge is live.
pub open spec fn deletion(table: ChallengeTable, challenge_id: u32) -> Option<ChallengeTable> {
    if table.contains_key(challenge_id) {
        Some(table.remove(challenge_id))
    } else {
        None
    }
}

/// The one failure of the table's operations.
pub open spec fn not_found(e: Error) -> bool {
    e@ == ErrorView::Challenge(ChallengeErrorKind::ChallengeNotFound)
}

/// Whether `found` is what looking for `challenge_id` in `table` gives: the
/// live challenge of that identifier, as it was issued, or the failure that
/// there is none.
pub open spec fn looked_up(
    table: ChallengeTable,
    challenge_id: u32,
    found: Result<Challenge, Error>,
) -> bool {
    match lookup(table, challenge_id) {
        Some(live) => found matches Ok(challenge) && challenge@ == live,
        None => found matches Err(e) && not_found(e),
    }
}

/// Whether `done` and the table `after` are what deleting `challenge_id`
/// from the table `before` gives: the table without that challenge, or, where
/// the challenge is not live, the failure that there is none and the table as
/// it was.
pub open spec fn deleted(
    before: ChallengeTable,
    challenge_id: u32,
    done: Result<(), Error>,
    after: ChallengeTable,
) -> bool {
    match deletion(before, challenge_id) {
        Some(rest) => done is Ok && after == rest,
        None => done matches Err(e) && not_found(e) && after == before,
    }
}

/// The table of live challenges, and the generator new ones are drawn from.
pub struct Challenger {
    challenge_table: HashMap<u32, Challenge>,
    rng: StdRng,
    /// Whether the operator wants each new challenge reported.
    pub verbose: bool,
}

impl View for Challenger {
    type V = ChallengeTable;

    /// The live challenges, by identifier.
    closed spec fn view(&self) -> ChallengeTable {
        self.challenge_table@.map_values(|c: Challenge| c@)
    }
}

/// Every nonzero identifier in a finite set makes it as large as the
/// identifier space.
proof fn lemma_all_identifiers_taken(ids: Set<u32>)
    requires
        ids.finite(),
        forall|id: u32| id != 0 ==> ids.contains(id),
    ensures
        ids.len() >= u32::MAX,
{
    let range = set_int_range(1, u32::MAX as int + 1);
    lemma_int_range(1, u32::MAX as int + 1);
    let narrow = |i: int| i as u32;
    let image = range.map(narrow);
    assert(vstd::relations::injective_on(narrow, range));
    lemma_map_size(range, image, narrow);
    assert(image.subset_of(ids)) by {
        assert forall|id: u32| image.contains(id) implies ids.contains(id) by {
            let i = choose|i: int| range.contains(i) && id == narrow(i);
            assert(id != 0);
        }
    }
    lemma_len_subset(image, ids);
}

impl Challenger {
    /// The table's invariant: every live challenge is filed under its own
    /// identifier, and that identifier is not zero.
    pub closed spec fn wf(&self) -> bool {
        forall|id: u32| #[trigger]
            self.challenge_table@.contains_key(id) ==> id != 0
                && self.challenge_table@[id].challenge_id == id
    }

    /// The value of the field `verbose`.
    pub closed spec fn is_verbose(&self) -> bool {
        self.verbose
    }

    /// An empty table, with a generator seeded from the system's entropy.
    pub fn new() -> (challenger: Challenger)
        ensures
            challenger.wf(),
            challenger@ == ChallengeTable::empty(),
            !challenger.is_verbose(),
    {
        let challenger = Challenger {
            challenge_table: HashMap::new(),
            rng: rng_from_entropy(),
            verbose: false,
        };
        assert(challenger@ =~= ChallengeTable::empty());
        challenger
    }

    /// The number of live challenges.
    pub fn live_count(&self) -> (count: usize)
        ensures
            count == self@.len(),
    {
        assert(self@.dom() =~= self.challenge_table@.dom());
        self.challenge_table.len()
    }

    /// An identifier that is not zero and that no live challenge has.
    ///
    /// Identifiers are drawn at random, and a draw that is zero or taken is
    /// thrown away. Should [`MAX_RANDOM_DRAWS`] draws in a row be thrown away,
    /// the least free identifier is taken.
    fn fresh_identifier(&mut self) -> (id: u32)
        requires
            old(self).wf(),
            old(self)@.len() < u32::MAX,
        ensures
            final(self).wf(),
            id != 0,
            !old(self)@.contains_key(id),
            final(self)@ == old(self)@,
            final(self).is_verbose() == old(self).is_verbose(),
    {
        assert(self.challenge_table@.dom() =~= self@.dom());
        let mut draws: u32 = 0;
        while draws < MAX_RANDOM_DRAWS
            invariant
                self.challenge_table == old(self).challenge_table,
                self.verbose == old(self).verbose,
                self.wf(),
                self.challenge_table@.len() < u32::MAX,
            decreases MAX_RANDOM_DRAWS - draws,
        {
            let candidate: u32 = random_u32(&mut self.rng);
            if candidate != 0 && !self.challenge_table.contains_key(&candidate) {
                return candidate;
            }
            draws += 1;
        }
        let mut candidate: u32 = 1;
        while self.challenge_table.contains_key(&candidate)
            invariant
                candidate >= 1,
                self.challenge_table == old(self).challenge_table,
                self.verbose == old(self).verbose,
                self.challenge_table@.dom().finite(),
                self.challenge_table@.len() < u32::MAX,
                forall|id: u32| 1 <= id < candidate ==> self.challenge_table@.contains_key(id),
            decreases u32::MAX - candidate,
        {
            if candidate == u32::MAX {
                proof {
                    lemma_all_identifiers_taken(self.challenge_table@.dom());
                }
            }
            candidate += 1;
        }
        candidate
    }

    /// The nonce of a new challenge: the example token's when the client is
    /// mocked, else [`NONCE_LENGTH`] random bytes.
    fn fresh_nonce(&mut self, mock_challenge: bool) -> (nonce: Vec<u8>)
        requires
            old(self).wf(),
        ensures
            final(self).wf(),
            mock_challenge ==> nonce@ == mock_nonce(),
            nonce@.len() == NONCE_LENGTH,
            final(self)@ == old(self)@,
            final(self).is_verbose() == old(self).is_verbose(),
    {
        if mock_challenge {
            let mut nonce: Vec<u8> = Vec::new();
            let mut i: usize = 0;
            while i < NONCE_LENGTH
                invariant
                    i <= NONCE_LENGTH,
                    nonce@ == CCA_EXAMPLE_TOKEN_NONCE@.subrange(0, i as int),
                decreases NONCE_LENGTH - i,
            {
                nonce.push(CCA_EXAMPLE_TOKEN_NONCE[i]);
                i += 1;
            }
            assert(nonce@ =~= CCA_EXAMPLE_TOKEN_NONCE@);
            nonce
        } else {
            let mut nonce: Vec<u8> = vec![0u8; NONCE_LENGTH];
            fill_random(&mut self.rng, &mut nonce);
            nonce
        }
    }

    /// Issues a challenge for the named key and the given wrapping key, and
    /// records it as live.
    ///
    /// The identifier is drawn at random. A draw that is zero or that a live
    /// challenge has is thrown away and another is made; should
    /// [`MAX_RANDOM_DRAWS`] draws in a row be thrown away, the least free
    /// identifier is taken. The nonce is that of the example token if
    /// `mock_challenge` is set, and [`NONCE_LENGTH`] random bytes if not.
    ///
    /// The identifier space must not be exhausted: with every nonzero
    /// identifier live there is none to give.
    pub fn create_challenge(
        &mut self,
        key_id: &str,
        wrapping_key: &PublicWrappingKey,
        mock_challenge: bool,
    ) -> (challenge: Challenge)
        requires
            old(self).wf(),
            old(self)@.len() < u32::MAX,
        ensures
            final(self).wf(),
            issued(old(self)@, key_id@, wrapping_key@, mock_challenge, challenge@, final(self)@),
            final(self)@.len() == old(self)@.len() + 1,
            final(self).is_verbose() == old(self).is_verbose(),
    {
        proof {
            lemma_live_challenges_are_finite(&*self);
        }
        let challenge_id = self.fresh_identifier();
        let challenge_value = self.fresh_nonce(mock_challenge);
        let challenge = Challenge {
            challenge_id,
            key_id: key_id.to_owned(),
            wrapping_key: wrapping_key.clone(),
            challenge_value,
        };
        self.challenge_table.insert(challenge_id, challenge.clone());
        assert(self@ =~= old(self)@.insert(challenge_id, challenge@));
        challenge
    }

    /// Issues a challenge as [`Challenger::create_challenge`] does, wherever
    /// there is an identifier to give it. Where every nonzero identifier is
    /// live, no challenge is issued and the table is left as it is.
    pub fn try_create_challenge(
        &mut self,
        key_id: &str,
        wrapping_key: &PublicWrappingKey,
        mock_challenge: bool,
    ) -> (made: Option<Challenge>)
        requires
            old(self).wf(),
        ensures
            final(self).wf(),
            match made {
                Some(challenge) => issued(
                    old(self)@,
                    key_id@,
                    wrapping_key@,
                    mock_challenge,
                    challenge@,
                    final(self)@,
                ),
                None => final(self)@ == old(self)@,
            },
            made is Some <==> old(self)@.len() < u32::MAX,
            final(self).is_verbose() == old(self).is_verbose(),
    {
        if self.live_count() < u32::MAX as usize {
            Some(self.create_challenge(key_id, wrapping_key, mock_challenge))
        } else {
            None
        }
    }

    /// The challenge with the given identifier, if it is live. The table is
    /// left as it is.
    pub fn get_challenge(&self, challenge_id: u32) -> (found: Result<Challenge, Error>)
        requires
            self.wf(),
        ensures
            looked_up(self@, challenge_id, found),
            found matches Ok(challenge) ==> challenge.challenge_id == challenge_id
                && challenge_id != 0,
    {
        match self.challenge_table.get(&challenge_id) {
            Some(c) => Ok(c.clone()),
            None => Err(Error::Challenge(ChallengeErrorKind::ChallengeNotFound)),
        }
    }

    /// Ends the life of the challenge with the given identifier. Where none
    /// is live under it, the table is left as it is.
    pub fn delete_challenge(&mut self, challenge_id: u32) -> (done: Result<(), Error>)
        requires
            old(self).wf(),
        ensures
            final(self).wf(),
            deleted(old(self)@, challenge_id, done, final(self)@),
            done is Ok ==> final(self)@.len() + 1 == old(self)@.len(),
            final(self).is_verbose() == old(self).is_verbose(),
    {
        proof {
            lemma_live_challenges_are_finite(&*self);
        }
        match self.challenge_table.remove(&challenge_id) {
            Some(_c) => {
                assert(self@ =~= old(self)@.remove(challenge_id));
                Ok(())
            },
            None => {
                assert(self@ =~= old(self)@);
                Err(Error::Challenge(ChallengeErrorKind::ChallengeNotFound))
            },
        }
    }
}

/// There are finitely many live challenges.
pub proof fn lemma_live_challenges_are_finite(challenger: &Challenger)
    ensures
        challenger@.dom().finite(),
{
    assert(challenger@.dom() =~= challenger.challenge_table@.dom());
}

/// Issuing a challenge makes the live challenges one more, and deleting a
/// live one makes them one fewer.
pub proof fn lemma_count_follows(
    before: ChallengeTable,
    key_id: Seq<char>,
    wrapping_key: PublicWrappingKeyView,
    mock_challenge: bool,
    challenge: ChallengeView,
    after: ChallengeTable,
)
    requires
        before.dom().finite(),
        issued(before, key_id, wrapping_key, mock_challenge, challenge, after),
    ensures
        after.dom().finite(),
        after.len() == before.len() + 1,
        deletion(after, challenge.challenge_id) matches Some(rest) && rest.len() == before.len(),
{
    assert(after.remove(challenge.challenge_id) =~= before);
}

/// Live identifiers are never zero, and each live challenge carries the
/// identifier it is filed under: no two live challenges share one.
pub proof fn lemma_live_identifiers(challenger: &Challenger)
    requires
        challenger.wf(),
    ensures
        forall|id: u32| #[trigger]
            challenger@.contains_key(id) ==> id != 0 && challenger@[id].challenge_id == id,
{
}

/// A challenge that has just been issued is found under its identifier, as
/// it was issued: with the key name and the wrapping key that were asked for
/// and a nonce of [`NONCE_LENGTH`] bytes. Every challenge that was live
/// before is found as before.
pub proof fn lemma_issued_is_found(
    before: ChallengeTable,
    key_id: Seq<char>,
    wrapping_key: PublicWrappingKeyView,
    mock_challenge: bool,
    challenge: ChallengeView,
    after: ChallengeTable,
)
    requires
        issued(before, key_id, wrapping_key, mock_challenge, challenge, after),
    ensures
        forall|found: Result<Challenge, Error>| #[trigger]
            looked_up(after, challenge.challenge_id, found) ==> (found matches Ok(live) && live@
                == challenge),
        challenge.key_id == key_id,
        challenge.wrapping_key == wrapping_key,
        challenge.challenge_value.len() == 64,
        forall|id: u32| before.contains_key(id) ==> lookup(after, id) == lookup(before, id),
{
}

/// Looking a challenge up twice, with nothing created or deleted in
/// between, gives the same twice: the same challenge, or the same failure.
pub proof fn lemma_lookup_repeats(
    table: ChallengeTable,
    challenge_id: u32,
    first: Result<Challenge, Error>,
    second: Result<Challenge, Error>,
)
    requires
        looked_up(table, challenge_id, first),
        looked_up(table, challenge_id, second),
    ensures
        match (first, second) {
            (Ok(one), Ok(other)) => one@ == other@,
            (Err(one), Err(other)) => one@ == other@,
            _ => false,
        },
{
}

/// A deleted challenge is gone: whoever looks for it or deletes it again is
/// told that there is none, and deleting it again changes nothing. The other
/// challenges are found as before.
pub proof fn lemma_deleted_is_gone(
    before: ChallengeTable,
    challenge_id: u32,
    done: Result<(), Error>,
    after: ChallengeTable,
)
    requires
        deleted(before, challenge_id, done, after),
        done is Ok,
    ensures
        forall|found: Result<Challenge, Error>| #[trigger]
            looked_up(after, challenge_id, found) ==> (found matches Err(e) && not_found(e)),
        forall|again: Result<(), Error>, left: ChallengeTable| #[trigger]
            deleted(after, challenge_id, again, left) ==> (again matches Err(e) && not_found(e)
                && left == after),
        forall|id: u32| id != challenge_id ==> lookup(after, id) == lookup(before, id),
{
}

/// A challenge can be redeemed once: after it was issued, one deletion
/// succeeds and every later one fails.
pub proof fn lemma_redeemed_once(
    before: ChallengeTable,
    key_id: Seq<char>,
    wrapping_key: PublicWrappingKeyView,
    mock_challenge: bool,
    challenge: ChallengeView,
    after: ChallengeTable,
)
    requires
        issued(before, key_id, wrapping_key, mock_challenge, challenge, after),
    ensures
        deletion(after, challenge.challenge_id) == Some(before),
        deletion(before, challenge.challenge_id) is None,
{
    assert(after.remove(challenge.challenge_id) =~= before);
}

} // verus!
