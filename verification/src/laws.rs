//! Rules of the DAO that relate several entry points or several calls,
//! stated and proved over the spec-level transitions of [`crate::dao`].
//!
//! Each entry point of [`crate::dao::Dao`] ensures that its return value and
//! successor state are exactly `*_result` and `*_next` of the old state, so
//! everything proved here holds of the executable operations as well.

use vstd::prelude::*;

use crate::dao::DaoData;
use crate::dao::eligible;
use crate::error::UnfairDaoError;
use crate::state::MAX_NAME_BYTES;
use crate::state::MemberData;
use crate::state::StatusType;
use crate::state::TierType;
use crate::state::VoteType;

verus! {

/// At most one member record exists per identity: in a well-formed state,
/// any two member indices holding the same wallet are the same index.
pub proof fn lemma_one_member_per_identity(s: DaoData, i: int, j: int)
    requires
        s.wf(),
        0 <= i < s.members.len(),
        0 <= j < s.members.len(),
        s.members[i].wallet == s.members[j].wallet,
    ensures
        i == j,
{
}

/// A valid registration creates the member record exactly as given, keyed by
/// `identity`, and the new state is again well-formed.
pub proof fn lemma_registration_creates(
    s: DaoData,
    identity: u64,
    fair_score: u16,
    social_score: u16,
    wallet_score: u16,
    tier: TierType,
    username: Seq<u8>,
    x_username: Seq<u8>,
    bump: u8,
)
    requires
        s.wf(),
        s.register_result(identity, username, x_username) is Ok,
    ensures
        ({
            let s1 = s.register_next(
                identity,
                fair_score,
                social_score,
                wallet_score,
                tier,
                username,
                x_username,
                bump,
            );
            &&& s1.wf()
            &&& s1.has_member(identity)
            &&& s1.member(identity) == (MemberData {
                bump,
                fair_score,
                social_score,
                wallet_score,
                tier,
                username,
                x_username,
                wallet: identity,
            })
            &&& s1.proposals == s.proposals
            &&& s1.votes == s.votes
        }),
{
    let s1 = s.register_next(
        identity,
        fair_score,
        social_score,
        wallet_score,
        tier,
        username,
        x_username,
        bump,
    );
    s.lemma_register_next_wf(
        identity,
        fair_score,
        social_score,
        wallet_score,
        tier,
        username,
        x_username,
        bump,
    );
    s1.lemma_member_idx_is(identity, s.members.len() as int);
}

/// A second registration for an identity that already has a member record
/// fails with `AlreadyExists` and changes nothing, whatever the inputs
/// (within their length bounds).
pub proof fn lemma_second_registration_rejected(
    s: DaoData,
    identity: u64,
    fair_score: u16,
    social_score: u16,
    wallet_score: u16,
    tier: TierType,
    username: Seq<u8>,
    x_username: Seq<u8>,
    bump: u8,
)
    requires
        s.has_member(identity),
        username.len() <= MAX_NAME_BYTES,
        x_username.len() <= MAX_NAME_BYTES,
    ensures
        s.register_result(identity, username, x_username) == Err::<(), _>(
            UnfairDaoError::AlreadyExists,
        ),
        s.register_next(
            identity,
            fair_score,
            social_score,
            wallet_score,
            tier,
            username,
            x_username,
            bump,
        ) == s,
{
}

/// Updating a member that does not exist fails with `NotFound` and changes
/// nothing.
pub proof fn lemma_update_missing_member_rejected(
    s: DaoData,
    identity: u64,
    fair_score: u16,
    social_score: u16,
    wallet_score: u16,
    tier: TierType,
)
    requires
        !s.has_member(identity),
    ensures
        s.update_result(identity) == Err::<(), _>(UnfairDaoError::NotFound),
        s.update_next(identity, fair_score, social_score, wallet_score, tier) == s,
{
}

/// Updating an existing member overwrites exactly the four mutable fields
/// and leaves `bump`, `username`, `x_username` and `wallet` — and every
/// other record — unchanged.
pub proof fn lemma_update_overwrites_only_mutable_fields(
    s: DaoData,
    identity: u64,
    fair_score: u16,
    social_score: u16,
    wallet_score: u16,
    tier: TierType,
)
    requires
        s.wf(),
        s.has_member(identity),
    ensures
        s.update_result(identity) is Ok,
        ({
            let s1 = s.update_next(identity, fair_score, social_score, wallet_score, tier);
            &&& s1.wf()
            &&& s1.has_member(identity)
            &&& s1.member(identity) == (MemberData {
                fair_score,
                social_score,
                wallet_score,
                tier,
                ..s.member(identity)
            })
            &&& s1.members == s.members.update(
                s.member_idx(identity),
                (MemberData { fair_score, social_score, wallet_score, tier, ..s.member(identity) }),
            )
            &&& s1.proposals == s.proposals
            &&& s1.votes == s.votes
        }),
{
    let s1 = s.update_next(identity, fair_score, social_score, wallet_score, tier);
    s.lemma_update_next_wf(identity, fair_score, social_score, wallet_score, tier);
    let k = s.member_idx(identity);
    assert(0 <= k < s.members.len() && s.members[k].wallet == identity);
    s1.lemma_member_idx_is(identity, k);
}

/// A successful submission initializes the proposal with `status` `Active`
/// and both tally counters zero, regardless of the inputs.
pub proof fn lemma_submission_initializes_tally(
    s: DaoData,
    author: u64,
    title: Seq<u8>,
    description: Seq<u8>,
    score_limit: u16,
    score_threshold: u16,
    quorum: u32,
    end_time: i64,
    bump: u8,
)
    requires
        s.wf(),
        s.submit_result(author, title, description) is Ok,
    ensures
        ({
            let s1 = s.submit_next(
                author,
                title,
                description,
                score_limit,
                score_threshold,
                quorum,
                end_time,
                bump,
            );
            &&& s1.wf()
            &&& s1.has_proposal(title, author)
            &&& s1.proposal(title, author).status == StatusType::Active
            &&& s1.proposal(title, author).votes_for == 0
            &&& s1.proposal(title, author).votes_against == 0
            &&& s1.members == s.members
            &&& s1.votes == s.votes
        }),
{
    let s1 = s.submit_next(
        author,
        title,
        description,
        score_limit,
        score_threshold,
        quorum,
        end_time,
        bump,
    );
    s.lemma_submit_next_wf(
        author,
        title,
        description,
        score_limit,
        score_threshold,
        quorum,
        end_time,
        bump,
    );
    s1.lemma_proposal_idx_is(title, author, s.proposals.len() as int);
}

/// A voter whose `fair_score` is at or below the proposal's
/// `score_threshold`, or at or above its `score_limit`, is turned away with
/// `Unqualified`, and neither a vote record nor a tally change is persisted.
pub proof fn lemma_unqualified_voter_rejected(
    s: DaoData,
    voter: u64,
    title: Seq<u8>,
    author: u64,
    vote: VoteType,
    bump: u8,
)
    requires
        s.has_member(voter),
        s.has_proposal(title, author),
        s.member(voter).fair_score <= s.proposal(title, author).score_threshold || s.member(
            voter,
        ).fair_score >= s.proposal(title, author).score_limit,
    ensures
        s.vote_result(voter, title, author, vote) == Err::<(), _>(UnfairDaoError::Unqualified),
        s.vote_next(voter, title, author, vote, bump) == s,
{
}

/// After one successful vote, a second cast by the same member on the same
/// proposal fails with `AlreadyExists`, and the second call's tally change
/// is not applied.
pub proof fn lemma_double_vote_rejected(
    s: DaoData,
    voter: u64,
    title: Seq<u8>,
    author: u64,
    vote1: VoteType,
    vote2: VoteType,
    bump1: u8,
    bump2: u8,
)
    requires
        s.wf(),
        s.vote_result(voter, title, author, vote1) is Ok,
    ensures
        ({
            let s1 = s.vote_next(voter, title, author, vote1, bump1);
            &&& s1.vote_result(voter, title, author, vote2) == Err::<(), _>(
                UnfairDaoError::AlreadyExists,
            )
            &&& s1.vote_next(voter, title, author, vote2, bump2) == s1
        }),
{
    let s1 = s.vote_next(voter, title, author, vote1, bump1);
    s.lemma_vote_next_wf(voter, title, author, vote1, bump1);
    let mi = s.member_idx(voter);
    assert(0 <= mi < s.members.len() && s.members[mi].wallet == voter);
    s1.lemma_member_idx_is(voter, mi);
    let pi = s.proposal_idx(title, author);
    assert(0 <= pi < s.proposals.len() && s.proposals[pi].title == title && s.proposals[pi].author
        == author);
    s1.lemma_proposal_idx_is(title, author, pi);
    assert(s1.votes[s.votes.len() as int].proposal.title == title && s1.votes[
        s.votes.len() as int
    ].proposal.author == author && s1.votes[s.votes.len() as int].member == voter);
    assert(s1.has_vote(title, author, voter));
}

/// A ballot whose tally counter already stands at the largest 32-bit value
/// fails with `CountOutOfRange` and leaves the counter — and everything
/// else — exactly as it was.
pub proof fn lemma_tally_overflow_rejected(
    s: DaoData,
    voter: u64,
    title: Seq<u8>,
    author: u64,
    vote: VoteType,
    bump: u8,
)
    requires
        s.has_member(voter),
        s.has_proposal(title, author),
        eligible(s.member(voter), s.proposal(title, author)),
        !s.has_vote(title, author, voter),
        vote is Approve ==> s.proposal(title, author).votes_for == u32::MAX,
        vote is Reject ==> s.proposal(title, author).votes_against == u32::MAX,
    ensures
        s.vote_result(voter, title, author, vote) == Err::<(), _>(UnfairDaoError::CountOutOfRange),
        s.vote_next(voter, title, author, vote, bump) == s,
{
}

} // verus!
