//! The three persisted record shapes (member, proposal, vote), the small
//! enums they carry, and ghost views of each record over `Seq<u8>`.

use vstd::prelude::*;

verus! {

/// Largest number of bytes allowed in a member's `username` or `x_username`.
pub const MAX_NAME_BYTES: usize = 16;

/// Largest number of bytes allowed in a proposal's `title`.
pub const MAX_TITLE_BYTES: usize = 64;

/// Largest number of bytes allowed in a proposal's `description`.
pub const MAX_DESCRIPTION_BYTES: usize = 1028;

/// Coarse reputation bracket carried on a member; no rule in scope reads it.
#[derive(Clone, Copy, Debug, PartialEq, Eq, Structural)]
pub enum TierType {
    Bronze,
    Silver,
    Gold,
    Platinum,
}

/// Lifecycle state of a proposal. Only `Active` is ever produced in scope:
/// no operation transitions a proposal to `Approved` or `Rejected`.
#[derive(Clone, Copy, Debug, PartialEq, Eq, Structural)]
pub enum StatusType {
    Active,
    Approved,
    Rejected,
}

/// The two directions a ballot can take.
#[derive(Clone, Copy, Debug, PartialEq, Eq, Structural)]
pub enum VoteType {
    Approve,
    Reject,
}

/// One member record, keyed by its `wallet` identity.
pub struct Member {
    /// Key-derivation salt, opaque to the rules.
    pub bump: u8,
    /// Reputation value gating voting eligibility.
    pub fair_score: u16,
    pub social_score: u16,
    pub wallet_score: u16,
    pub tier: TierType,
    /// UTF-8 bytes, at most [`MAX_NAME_BYTES`].
    pub username: Vec<u8>,
    /// UTF-8 bytes, at most [`MAX_NAME_BYTES`].
    pub x_username: Vec<u8>,
    /// Owning identity key; also the record's lookup key.
    pub wallet: u64,
}

/// One proposal record, keyed by `(title, author)`.
pub struct Proposal {
    pub bump: u8,
    /// Exclusive upper bound of the eligibility window.
    pub score_limit: u16,
    /// Exclusive lower bound of the eligibility window.
    pub score_threshold: u16,
    pub votes_against: u32,
    pub votes_for: u32,
    /// Declared but not enforced by any operation in scope.
    pub quorum: u32,
    /// Declared but not enforced by any operation in scope.
    pub end_time: i64,
    pub status: StatusType,
    /// UTF-8 bytes, at most [`MAX_TITLE_BYTES`].
    pub title: Vec<u8>,
    /// UTF-8 bytes, at most [`MAX_DESCRIPTION_BYTES`].
    pub description: Vec<u8>,
    /// Identity key of the member that submitted the proposal.
    pub author: u64,
}

/// Lookup key of a proposal: the pair that the store derives its address from.
pub struct ProposalId {
    pub title: Vec<u8>,
    pub author: u64,
}

/// One vote record, keyed by `(proposal, member)`; immutable once cast.
pub struct Vote {
    pub bump: u8,
    /// The voter's `fair_score` snapshotted at cast time.
    pub weight: u16,
    pub vote: VoteType,
    pub proposal: ProposalId,
    /// Identity key of the voting member.
    pub member: u64,
}

/// Ghost view of a [`Member`].
#[verifier::ext_equal]
pub struct MemberData {
    pub bump: u8,
    pub fair_score: u16,
    pub social_score: u16,
    pub wallet_score: u16,
    pub tier: TierType,
    pub username: Seq<u8>,
    pub x_username: Seq<u8>,
    pub wallet: u64,
}

/// Ghost view of a [`Proposal`].
#[verifier::ext_equal]
pub struct ProposalData {
    pub bump: u8,
    pub score_limit: u16,
    pub score_threshold: u16,
    pub votes_against: u32,
    pub votes_for: u32,
    pub quorum: u32,
    pub end_time: i64,
    pub status: StatusType,
    pub title: Seq<u8>,
    pub description: Seq<u8>,
    pub author: u64,
}

/// Ghost view of a [`ProposalId`].
#[verifier::ext_equal]
pub struct ProposalIdData {
    pub title: Seq<u8>,
    pub author: u64,
}

/// Ghost view of a [`Vote`].
#[verifier::ext_equal]
pub struct VoteData {
    pub bump: u8,
    pub weight: u16,
    pub vote: VoteType,
    pub proposal: ProposalIdData,
    pub member: u64,
}

impl View for Member {
    type V = MemberData;

    open spec fn view(&self) -> MemberData {
        MemberData {
            bump: self.bump,
            fair_score: self.fair_score,
            social_score: self.social_score,
            wallet_score: self.wallet_score,
            tier: self.tier,
            username: self.username@,
            x_username: self.x_username@,
            wallet: self.wallet,
        }
    }
}

impl View for Proposal {
    type V = ProposalData;

    open spec fn view(&self) -> ProposalData {
        ProposalData {
            bump: self.bump,
            score_limit: self.score_limit,
            score_threshold: self.score_threshold,
            votes_against: self.votes_against,
            votes_for: self.votes_for,
            quorum: self.quorum,
            end_time: self.end_time,
            status: self.status,
            title: self.title@,
            description: self.description@,
            author: self.author,
        }
    }
}

impl View for ProposalId {
    type V = ProposalIdData;

    open spec fn view(&self) -> ProposalIdData {
        ProposalIdData { title: self.title@, author: self.author }
    }
}

impl View for Vote {
    type V = VoteData;

    open spec fn view(&self) -> VoteData {
        VoteData {
            bump: self.bump,
            weight: self.weight,
            vote: self.vote,
            proposal: self.proposal@,
            member: self.member,
        }
    }
}

} // verus!
