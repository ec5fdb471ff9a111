//! The DAO state and its four entry points.
//!
//! [`DaoData`] is the mathematical model: three sequences of record views,
//! with a well-formedness predicate saying every lookup key is held by at
//! most one record. Each entry point of [`Dao`] is specified by a pair of
//! spec functions on the model — `*_result` gives the returned value and
//! `*_next` the successor state — so that rules relating several calls can
//! be stated and proved purely at the spec level.

use vstd::prelude::*;
use vstd::pervasive::VecAdditionalExecFns;

use crate::error::UnfairDaoError;
use crate::state::MAX_DESCRIPTION_BYTES;
use crate::state::MAX_NAME_BYTES;
use crate::state::MAX_TITLE_BYTES;
use crate::state::Member;
use crate::state::MemberData;
use crate::state::Proposal;
use crate::state::ProposalData;
use crate::state::ProposalId;
use crate::state::ProposalIdData;
use crate::state::StatusType;
use crate::state::TierType;
use crate::state::Vote;
use crate::state::VoteData;
use crate::state::VoteType;

verus! {

/// Mathematical model of the whole DAO state.
#[verifier::ext_equal]
pub struct DaoData {
    pub members: Seq<MemberData>,
    pub proposals: Seq<ProposalData>,
    pub votes: Seq<VoteData>,
}

/// The voter is strictly inside the proposal's eligibility window: both
/// bounds are exclusive, so a `fair_score` equal to either bound fails.
pub open spec fn eligible(m: MemberData, p: ProposalData) -> bool {
    p.score_threshold < m.fair_score && m.fair_score < p.score_limit
}

impl DaoData {
    /// Some member record is keyed by `wallet`.
    pub open spec fn has_member(self, wallet: u64) -> bool {
        exists|i: int| 0 <= i < self.members.len() && self.members[i].wallet == wallet
    }

    /// Index of the member record keyed by `wallet`; meaningful only when
    /// `has_member(wallet)` holds (and then unique, by `wf`).
    pub open spec fn member_idx(self, wallet: u64) -> int {
        choose|i: int| 0 <= i < self.members.len() && self.members[i].wallet == wallet
    }

    /// The member record keyed by `wallet`.
    pub open spec fn member(self, wallet: u64) -> MemberData {
        self.members[self.member_idx(wallet)]
    }

    /// Some proposal record is keyed by `(title, author)`.
    pub open spec fn has_proposal(self, title: Seq<u8>, author: u64) -> bool {
        exists|i: int|
            0 <= i < self.proposals.len() && self.proposals[i].title == title
                && self.proposals[i].author == author
    }

    /// Index of the proposal record keyed by `(title, author)`; meaningful
    /// only when `has_proposal(title, author)` holds (and then unique).
    pub open spec fn proposal_idx(self, title: Seq<u8>, author: u64) -> int {
        choose|i: int|
            0 <= i < self.proposals.len() && self.proposals[i].title == title
                && self.proposals[i].author == author
    }

    /// The proposal record keyed by `(title, author)`.
    pub open spec fn proposal(self, title: Seq<u8>, author: u64) -> ProposalData {
        self.proposals[self.proposal_idx(title, author)]
    }

    /// Some vote record is keyed by `(proposal, member)`.
    pub open spec fn has_vote(self, title: Seq<u8>, author: u64, member: u64) -> bool {
        exists|i: int|
            0 <= i < self.votes.len() && self.votes[i].proposal.title == title
                && self.votes[i].proposal.author == author && self.votes[i].member == member
    }

    /// Every record's variable-length fields are within their declared
    /// maximum byte lengths.
    pub open spec fn lengths_ok(self) -> bool {
        &&& forall|i: int|
            0 <= i < self.members.len() ==> (#[trigger] self.members[i]).username.len()
                <= MAX_NAME_BYTES && self.members[i].x_username.len() <= MAX_NAME_BYTES
        &&& forall|i: int|
            0 <= i < self.proposals.len() ==> (#[trigger] self.proposals[i]).title.len()
                <= MAX_TITLE_BYTES && self.proposals[i].description.len() <= MAX_DESCRIPTION_BYTES
        &&& forall|i: int|
            0 <= i < self.votes.len() ==> (#[trigger] self.votes[i]).proposal.title.len()
                <= MAX_TITLE_BYTES
    }

    /// Well-formedness: at most one record per derived key, in each of the
    /// three stores, and all length bounds hold.
    pub open spec fn wf(self) -> bool {
        &&& forall|i: int, j: int|
            #![trigger self.members[i].wallet, self.members[j].wallet]
            0 <= i < self.members.len() && 0 <= j < self.members.len() && i != j
                ==> self.members[i].wallet != self.members[j].wallet
        &&& forall|i: int, j: int|
            #![trigger self.proposals[i], self.proposals[j]]
            0 <= i < self.proposals.len() && 0 <= j < self.proposals.len() && i != j ==> !(
            self.proposals[i].title == self.proposals[j].title && self.proposals[i].author
                == self.proposals[j].author)
        &&& forall|i: int, j: int|
            #![trigger self.votes[i], self.votes[j]]
            0 <= i < self.votes.len() && 0 <= j < self.votes.len() && i != j ==> !(self.votes[i].proposal
                == self.votes[j].proposal && self.votes[i].member == self.votes[j].member)
        &&& self.lengths_ok()
    }

    /// Value returned by `register_member`.
    pub open spec fn register_result(
        self,
        identity: u64,
        username: Seq<u8>,
        x_username: Seq<u8>,
    ) -> Result<(), UnfairDaoError> {
        if username.len() > MAX_NAME_BYTES || x_username.len() > MAX_NAME_BYTES {
            Err(UnfairDaoError::TooLong)
        } else if self.has_member(identity) {
            Err(UnfairDaoError::AlreadyExists)
        } else {
            Ok(())
        }
    }

    /// State after `register_member`: unchanged on failure, one new member
    /// record appended on success.
    pub open spec fn register_next(
        self,
        identity: u64,
        fair_score: u16,
        social_score: u16,
        wallet_score: u16,
        tier: TierType,
        username: Seq<u8>,
        x_username: Seq<u8>,
        bump: u8,
    ) -> DaoData {
        if self.register_result(identity, username, x_username) is Ok {
            DaoData {
                members: self.members.push(
                    (MemberData {
                        bump,
                        fair_score,
                        social_score,
                        wallet_score,
                        tier,
                        username,
                        x_username,
                        wallet: identity,
                    }),
                ),
                ..self
            }
        } else {
            self
        }
    }

    /// Value returned by `update_member`.
    pub open spec fn update_result(self, identity: u64) -> Result<(), UnfairDaoError> {
        if self.has_member(identity) {
            Ok(())
        } else {
            Err(UnfairDaoError::NotFound)
        }
    }

    /// State after `update_member`: unchanged on failure; on success exactly
    /// the four mutable fields of the caller's record are overwritten, and
    /// `bump`, `username`, `x_username` and `wallet` are kept.
    pub open spec fn update_next(
        self,
        identity: u64,
        fair_score: u16,
        social_score: u16,
        wallet_score: u16,
        tier: TierType,
    ) -> DaoData {
        if self.has_member(identity) {
            DaoData {
                members: self.members.update(
                    self.member_idx(identity),
                    (MemberData { fair_score, social_score, wallet_score, tier, ..self.member(
                        identity,
                    ) }),
                ),
                ..self
            }
        } else {
            self
        }
    }

    /// Value returned by `submit_proposal`.
    pub open spec fn submit_result(
        self,
        author: u64,
        title: Seq<u8>,
        description: Seq<u8>,
    ) -> Result<(), UnfairDaoError> {
        if title.len() > MAX_TITLE_BYTES || description.len() > MAX_DESCRIPTION_BYTES {
            Err(UnfairDaoError::TooLong)
        } else if !self.has_member(author) {
            Err(UnfairDaoError::NotFound)
        } else if self.has_proposal(title, author) {
            Err(UnfairDaoError::AlreadyExists)
        } else {
            Ok(())
        }
    }

    /// State after `submit_proposal`: unchanged on failure; on success one
    /// new proposal record appended, with `status` `Active` and both tally
    /// counters zero regardless of the inputs.
    pub open spec fn submit_next(
        self,
        author: u64,
        title: Seq<u8>,
        description: Seq<u8>,
        score_limit: u16,
        score_threshold: u16,
        quorum: u32,
        end_time: i64,
        bump: u8,
    ) -> DaoData {
        if self.submit_result(author, title, description) is Ok {
            DaoData {
                proposals: self.proposals.push(
                    (ProposalData {
                        bump,
                        score_limit,
                        score_threshold,
                        votes_against: 0,
                        votes_for: 0,
                        quorum,
                        end_time,
                        status: StatusType::Active,
                        title,
                        description,
                        author,
                    }),
                ),
                ..self
            }
        } else {
            self
        }
    }

    /// Value returned by `vote_proposal`. Failures are decided in this
    /// order: a missing record, then eligibility, then a prior vote by the
    /// same member, then tally overflow.
    pub open spec fn vote_result(
        self,
        voter: u64,
        title: Seq<u8>,
        author: u64,
        vote: VoteType,
    ) -> Result<(), UnfairDaoError> {
        if !self.has_member(voter) || !self.has_proposal(title, author) {
            Err(UnfairDaoError::NotFound)
        } else if !eligible(self.member(voter), self.proposal(title, author)) {
            Err(UnfairDaoError::Unqualified)
        } else if self.has_vote(title, author, voter) {
            Err(UnfairDaoError::AlreadyExists)
        } else if vote is Approve && self.proposal(title, author).votes_for == u32::MAX {
            Err(UnfairDaoError::CountOutOfRange)
        } else if vote is Reject && self.proposal(title, author).votes_against == u32::MAX {
            Err(UnfairDaoError::CountOutOfRange)
        } else {
            Ok(())
        }
    }

    /// The proposal record with one tally counter stepped by the ballot.
    pub open spec fn tallied(p: ProposalData, vote: VoteType) -> ProposalData {
        match vote {
            VoteType::Approve => ProposalData { votes_for: (p.votes_for + 1) as u32, ..p },
            VoteType::Reject => ProposalData { votes_against: (p.votes_against + 1) as u32, ..p },
        }
    }

    /// State after `vote_proposal`: unchanged on any failure (in particular
    /// no tally change survives a failed cast); on success the proposal's
    /// tally is stepped and one new vote record is appended, its `weight`
    /// a snapshot of the voter's `fair_score` at cast time.
    pub open spec fn vote_next(
        self,
        voter: u64,
        title: Seq<u8>,
        author: u64,
        vote: VoteType,
        bump: u8,
    ) -> DaoData {
        if self.vote_result(voter, title, author, vote) is Ok {
            DaoData {
                members: self.members,
                proposals: self.proposals.update(
                    self.proposal_idx(title, author),
                    Self::tallied(self.proposal(title, author), vote),
                ),
                votes: self.votes.push(
                    (VoteData {
                        bump,
                        weight: self.member(voter).fair_score,
                        vote,
                        proposal: ProposalIdData { title, author },
                        member: voter,
                    }),
                ),
            }
        } else {
            self
        }
    }
}

impl DaoData {
    /// In a well-formed state, an index holding wallet `wallet` is the one
    /// that `member_idx` names.
    pub proof fn lemma_member_idx_is(self, wallet: u64, i: int)
        requires
            self.wf(),
            0 <= i < self.members.len(),
            self.members[i].wallet == wallet,
        ensures
            self.has_member(wallet),
            self.member_idx(wallet) == i,
            self.member(wallet) == self.members[i],
    {
        assert(self.has_member(wallet));
        let k = self.member_idx(wallet);
        assert(0 <= k < self.members.len() && self.members[k].wallet == wallet);
    }

    /// In a well-formed state, an index holding proposal key `(title,
    /// author)` is the one that `proposal_idx` names.
    pub proof fn lemma_proposal_idx_is(self, title: Seq<u8>, author: u64, i: int)
        requires
            self.wf(),
            0 <= i < self.proposals.len(),
            self.proposals[i].title == title,
            self.proposals[i].author == author,
        ensures
            self.has_proposal(title, author),
            self.proposal_idx(title, author) == i,
            self.proposal(title, author) == self.proposals[i],
    {
        assert(self.has_proposal(title, author));
        let k = self.proposal_idx(title, author);
        assert(0 <= k < self.proposals.len() && self.proposals[k].title == title
            && self.proposals[k].author == author);
    }

    /// An update preserves well-formedness: the record keeps its key, the
    /// name fields keep their lengths, and nothing else moves.
    pub proof fn lemma_update_next_wf(
        self,
        identity: u64,
        fair_score: u16,
        social_score: u16,
        wallet_score: u16,
        tier: TierType,
    )
        requires
            self.wf(),
        ensures
            self.update_next(identity, fair_score, social_score, wallet_score, tier).wf(),
    {
        let s1 = self.update_next(identity, fair_score, social_score, wallet_score, tier);
        if self.has_member(identity) {
            let k = self.member_idx(identity);
            assert(0 <= k < self.members.len() && self.members[k].wallet == identity);
            assert(forall|i: int|
                0 <= i < s1.members.len() ==> #[trigger] s1.members[i].wallet
                    == self.members[i].wallet && s1.members[i].username == self.members[i].username
                    && s1.members[i].x_username == self.members[i].x_username);
        }
    }

    /// A submission preserves well-formedness: the appended proposal's key
    /// was free, its fields are within bounds, and nothing else moves.
    pub proof fn lemma_submit_next_wf(
        self,
        author: u64,
        title: Seq<u8>,
        description: Seq<u8>,
        score_limit: u16,
        score_threshold: u16,
        quorum: u32,
        end_time: i64,
        bump: u8,
    )
        requires
            self.wf(),
        ensures
            self.submit_next(
                author,
                title,
                description,
                score_limit,
                score_threshold,
                quorum,
                end_time,
                bump,
            ).wf(),
    {
        let s1 = self.submit_next(
            author,
            title,
            description,
            score_limit,
            score_threshold,
            quorum,
            end_time,
            bump,
        );
        if self.submit_result(author, title, description) is Ok {
            assert forall|i: int, j: int|
                0 <= i < s1.proposals.len() && 0 <= j < s1.proposals.len() && i != j implies !((
            #[trigger] s1.proposals[i]).title == (#[trigger] s1.proposals[j]).title
                && s1.proposals[i].author == s1.proposals[j].author) by {
                if i < self.proposals.len() && j < self.proposals.len() {
                } else if i == self.proposals.len() {
                    assert(!(self.proposals[j].title == title && self.proposals[j].author
                        == author));
                } else {
                    assert(!(self.proposals[i].title == title && self.proposals[i].author
                        == author));
                }
            }
        }
    }

    /// A cast vote preserves well-formedness: the tallied proposal keeps its
    /// key and lengths, the appended vote's key was free, and the new vote's
    /// stored title is one a proposal already holds, so it is within bounds.
    pub proof fn lemma_vote_next_wf(
        self,
        voter: u64,
        title: Seq<u8>,
        author: u64,
        vote: VoteType,
        bump: u8,
    )
        requires
            self.wf(),
        ensures
            self.vote_next(voter, title, author, vote, bump).wf(),
    {
        let s1 = self.vote_next(voter, title, author, vote, bump);
        if self.vote_result(voter, title, author, vote) is Ok {
            let pi = self.proposal_idx(title, author);
            assert(0 <= pi < self.proposals.len() && self.proposals[pi].title == title
                && self.proposals[pi].author == author);
            assert(forall|i: int|
                0 <= i < s1.proposals.len() ==> (#[trigger] s1.proposals[i]).title
                    == self.proposals[i].title && s1.proposals[i].author
                    == self.proposals[i].author && s1.proposals[i].description
                    == self.proposals[i].description);
            assert forall|i: int, j: int|
                0 <= i < s1.votes.len() && 0 <= j < s1.votes.len() && i != j implies !((
            #[trigger] s1.votes[i]).proposal == (#[trigger] s1.votes[j]).proposal && s1.votes[i].member
                == s1.votes[j].member) by {
                if i < self.votes.len() && j < self.votes.len() {
                } else if i == self.votes.len() {
                    assert(!(self.votes[j].proposal.title == title && self.votes[j].proposal.author
                        == author && self.votes[j].member == voter));
                } else {
                    assert(!(self.votes[i].proposal.title == title && self.votes[i].proposal.author
                        == author && self.votes[i].member == voter));
                }
            }
            assert(s1.votes[s1.votes.len() - 1].proposal.title.len() <= MAX_TITLE_BYTES);
        }
    }

    /// Registration preserves well-formedness: the appended record's key was
    /// free, its name fields are within bounds, and nothing else moves.
    pub proof fn lemma_register_next_wf(
        self,
        identity: u64,
        fair_score: u16,
        social_score: u16,
        wallet_score: u16,
        tier: TierType,
        username: Seq<u8>,
        x_username: Seq<u8>,
        bump: u8,
    )
        requires
            self.wf(),
        ensures
            self.register_next(
                identity,
                fair_score,
                social_score,
                wallet_score,
                tier,
                username,
                x_username,
                bump,
            ).wf(),
    {
        let s1 = self.register_next(
            identity,
            fair_score,
            social_score,
            wallet_score,
            tier,
            username,
            x_username,
            bump,
        );
        if self.register_result(identity, username, x_username) is Ok {
            assert forall|i: int, j: int|
                0 <= i < s1.members.len() && 0 <= j < s1.members.len() && i != j implies #[trigger] s1.members[i].wallet
                != #[trigger] s1.members[j].wallet by {
                if i < self.members.len() && j < self.members.len() {
                } else if i == self.members.len() {
                    assert(self.members[j].wallet != identity);
                } else {
                    assert(self.members[i].wallet != identity);
                }
            }
        }
    }
}

/// Compares two byte strings for equality of contents.
fn bytes_eq(a: &Vec<u8>, b: &Vec<u8>) -> (r: bool)
    ensures
        r == (a@ == b@),
{
    if a.len() != b.len() {
        return false;
    }
    let mut i: usize = 0;
    while i < a.len()
        invariant
            i <= a.len(),
            a@.len() == b@.len(),
            forall|j: int| 0 <= j < i ==> a@[j] == b@[j],
        decreases a.len() - i,
    {
        if a[i] != b[i] {
            return false;
        }
        i += 1;
    }
    proof {
        assert(a@ =~= b@);
    }
    true
}

/// Copies a byte string.
fn copy_bytes(a: &Vec<u8>) -> (r: Vec<u8>)
    ensures
        r@ == a@,
{
    let mut r: Vec<u8> = Vec::new();
    let mut i: usize = 0;
    while i < a.len()
        invariant
            i <= a.len(),
            r@ == a@.subrange(0, i as int),
        decreases a.len() - i,
    {
        r.push(a[i]);
        i += 1;
        proof {
            assert(r@ =~= a@.subrange(0, i as int));
        }
    }
    proof {
        assert(a@.subrange(0, a@.len() as int) =~= a@);
    }
    r
}

/// The whole DAO state: three stores of records, each keyed by the fields
/// its invariant names.
pub struct Dao {
    pub members: Vec<Member>,
    pub proposals: Vec<Proposal>,
    pub votes: Vec<Vote>,
}

impl View for Dao {
    type V = DaoData;

    open spec fn view(&self) -> DaoData {
        DaoData {
            members: self.members@.map_values(|m: Member| m@),
            proposals: self.proposals@.map_values(|p: Proposal| p@),
            votes: self.votes@.map_values(|v: Vote| v@),
        }
    }
}

impl Dao {
    /// The empty DAO: no members, no proposals, no votes.
    pub fn new() -> (d: Dao)
        ensures
            d@.members.len() == 0,
            d@.proposals.len() == 0,
            d@.votes.len() == 0,
            d@.wf(),
    {
        Dao { members: Vec::new(), proposals: Vec::new(), votes: Vec::new() }
    }

    /// Finds the index of the member record keyed by `wallet`, if any.
    fn find_member(&self, wallet: u64) -> (r: Option<usize>)
        ensures
            match r {
                Some(i) => i < self@.members.len() && self@.members[i as int].wallet == wallet,
                None => !self@.has_member(wallet),
            },
    {
        let mut i: usize = 0;
        while i < self.members.len()
            invariant
                i <= self.members.len(),
                forall|j: int| 0 <= j < i ==> self@.members[j].wallet != wallet,
            decreases self.members.len() - i,
        {
            if self.members[i].wallet == wallet {
                return Some(i);
            }
            i += 1;
        }
        None
    }

    /// Registers a new member keyed by `identity`, owner of its record.
    ///
    /// Fails with `TooLong` if a name field exceeds its bound, and with
    /// `AlreadyExists` if a member is already registered for `identity`;
    /// either failure leaves the state untouched. Any score values are
    /// accepted. `bump` is the host-supplied key-derivation salt, stored
    /// verbatim.
    pub fn register_member(
        &mut self,
        identity: u64,
        fair_score: u16,
        social_score: u16,
        wallet_score: u16,
        tier: TierType,
        username: Vec<u8>,
        x_username: Vec<u8>,
        bump: u8,
    ) -> (r: Result<(), UnfairDaoError>)
        requires
            old(self)@.wf(),
        ensures
            final(self)@.wf(),
            r == old(self)@.register_result(identity, username@, x_username@),
            final(self)@ == old(self)@.register_next(
                identity,
                fair_score,
                social_score,
                wallet_score,
                tier,
                username@,
                x_username@,
                bump,
            ),
    {
        if username.len() > MAX_NAME_BYTES || x_username.len() > MAX_NAME_BYTES {
            return Err(UnfairDaoError::TooLong);
        }
        if self.find_member(identity).is_some() {
            return Err(UnfairDaoError::AlreadyExists);
        }
        let ghost s0 = self@;
        let ghost md = MemberData {
            bump,
            fair_score,
            social_score,
            wallet_score,
            tier,
            username: username@,
            x_username: x_username@,
            wallet: identity,
        };
        self.members.push(
            Member {
                bump,
                fair_score,
                social_score,
                wallet_score,
                tier,
                username,
                x_username,
                wallet: identity,
            },
        );
        proof {
            assert(self@.members =~~= s0.members.push(md));
            assert(self@ =~~= s0.register_next(
                identity,
                fair_score,
                social_score,
                wallet_score,
                tier,
                md.username,
                md.x_username,
                bump,
            ));
            s0.lemma_register_next_wf(
                identity,
                fair_score,
                social_score,
                wallet_score,
                tier,
                md.username,
                md.x_username,
                bump,
            );
        }
        Ok(())
    }

    /// Overwrites the four mutable fields of the member record keyed by
    /// `identity`; `bump`, `username`, `x_username` and `wallet` stay as
    /// they are. Only the owning identity reaches its own record, since the
    /// record is looked up by the caller's key.
    ///
    /// Fails with `NotFound`, leaving the state untouched, if no member is
    /// registered for `identity`.
    pub fn update_member(
        &mut self,
        identity: u64,
        fair_score: u16,
        social_score: u16,
        wallet_score: u16,
        tier: TierType,
    ) -> (r: Result<(), UnfairDaoError>)
        requires
            old(self)@.wf(),
        ensures
            final(self)@.wf(),
            r == old(self)@.update_result(identity),
            final(self)@ == old(self)@.update_next(
                identity,
                fair_score,
                social_score,
                wallet_score,
                tier,
            ),
    {
        let i = match self.find_member(identity) {
            None => {
                return Err(UnfairDaoError::NotFound);
            },
            Some(i) => i,
        };
        let ghost s0 = self@;
        proof {
            s0.lemma_member_idx_is(identity, i as int);
        }
        let m = &self.members[i];
        let updated = Member {
            bump: m.bump,
            fair_score,
            social_score,
            wallet_score,
            tier,
            username: copy_bytes(&m.username),
            x_username: copy_bytes(&m.x_username),
            wallet: m.wallet,
        };
        self.members.set(i, updated);
        proof {
            assert(self@.members =~~= s0.members.update(
                i as int,
                (MemberData { fair_score, social_score, wallet_score, tier, ..s0.member(
                    identity,
                ) }),
            ));
            assert(self@ =~~= s0.update_next(
                identity,
                fair_score,
                social_score,
                wallet_score,
                tier,
            ));
            s0.lemma_update_next_wf(identity, fair_score, social_score, wallet_score, tier);
        }
        Ok(())
    }

    /// Finds the index of the proposal record keyed by `(title, author)`,
    /// if any.
    fn find_proposal(&self, title: &Vec<u8>, author: u64) -> (r: Option<usize>)
        ensures
            match r {
                Some(i) => i < self@.proposals.len() && self@.proposals[i as int].title == title@
                    && self@.proposals[i as int].author == author,
                None => !self@.has_proposal(title@, author),
            },
    {
        let mut i: usize = 0;
        while i < self.proposals.len()
            invariant
                i <= self.proposals.len(),
                forall|j: int|
                    0 <= j < i ==> !((#[trigger] self@.proposals[j]).title == title@
                        && self@.proposals[j].author == author),
            decreases self.proposals.len() - i,
        {
            if self.proposals[i].author == author && bytes_eq(&self.proposals[i].title, title) {
                return Some(i);
            }
            i += 1;
        }
        None
    }

    /// Submits a new proposal keyed by `(title, author)`, with `status`
    /// `Active` and both tally counters zero, whatever the inputs. The
    /// eligibility window `(score_threshold, score_limit)`, `quorum` and
    /// `end_time` are stored as given: no sanity check relates them, and
    /// `quorum` and `end_time` are never enforced in scope.
    ///
    /// Fails with `TooLong` if `title` or `description` exceeds its bound,
    /// with `NotFound` if no member is registered for `author`, and with
    /// `AlreadyExists` if this author already has a proposal with this
    /// title; any failure leaves the state untouched.
    pub fn submit_proposal(
        &mut self,
        author: u64,
        title: Vec<u8>,
        description: Vec<u8>,
        score_limit: u16,
        score_threshold: u16,
        quorum: u32,
        end_time: i64,
        bump: u8,
    ) -> (r: Result<(), UnfairDaoError>)
        requires
            old(self)@.wf(),
        ensures
            final(self)@.wf(),
            r == old(self)@.submit_result(author, title@, description@),
            final(self)@ == old(self)@.submit_next(
                author,
                title@,
                description@,
                score_limit,
                score_threshold,
                quorum,
                end_time,
                bump,
            ),
    {
        if title.len() > MAX_TITLE_BYTES || description.len() > MAX_DESCRIPTION_BYTES {
            return Err(UnfairDaoError::TooLong);
        }
        if self.find_member(author).is_none() {
            return Err(UnfairDaoError::NotFound);
        }
        if self.find_proposal(&title, author).is_some() {
            return Err(UnfairDaoError::AlreadyExists);
        }
        let ghost s0 = self@;
        let ghost pd = ProposalData {
            bump,
            score_limit,
            score_threshold,
            votes_against: 0,
            votes_for: 0,
            quorum,
            end_time,
            status: StatusType::Active,
            title: title@,
            description: description@,
            author,
        };
        self.proposals.push(
            Proposal {
                bump,
                score_limit,
                score_threshold,
                votes_against: 0,
                votes_for: 0,
                quorum,
                end_time,
                status: StatusType::Active,
                title,
                description,
                author,
            },
        );
        proof {
            assert(self@.proposals =~~= s0.proposals.push(pd));
            assert(self@ =~~= s0.submit_next(
                author,
                pd.title,
                pd.description,
                score_limit,
                score_threshold,
                quorum,
                end_time,
                bump,
            ));
            s0.lemma_submit_next_wf(
                author,
                pd.title,
                pd.description,
                score_limit,
                score_threshold,
                quorum,
                end_time,
                bump,
            );
        }
        Ok(())
    }

    /// Whether a vote record keyed by `(title, author, member)` exists.
    fn vote_exists(&self, title: &Vec<u8>, author: u64, member: u64) -> (r: bool)
        ensures
            r == self@.has_vote(title@, author, member),
    {
        let mut i: usize = 0;
        while i < self.votes.len()
            invariant
                i <= self.votes.len(),
                forall|j: int|
                    0 <= j < i ==> !((#[trigger] self@.votes[j]).proposal.title == title@
                        && self@.votes[j].proposal.author == author && self@.votes[j].member
                        == member),
            decreases self.votes.len() - i,
        {
            let v = &self.votes[i];
            if v.member == member && v.proposal.author == author && bytes_eq(&v.proposal.title, title) {
                proof {
                    assert(self@.votes[i as int].proposal.title == title@ && self@.votes[
                        i as int
                    ].proposal.author == author && self@.votes[i as int].member == member);
                }
                return true;
            }
            i += 1;
        }
        false
    }

    /// Casts the ballot of member `voter` on the proposal keyed by
    /// `proposal`: steps the matching tally counter and appends one vote
    /// record whose `weight` snapshots the voter's `fair_score` at cast
    /// time. Neither `quorum` nor `end_time` is checked.
    ///
    /// Fails with `NotFound` if the member or the proposal is missing; with
    /// `Unqualified` if the voter's `fair_score` is not strictly between
    /// the proposal's `score_threshold` and `score_limit` (both bounds
    /// exclusive); with `AlreadyExists` if this member already voted on
    /// this proposal; and with `CountOutOfRange` if the tally counter to
    /// step is at its maximum. Every failure leaves the state untouched:
    /// in particular no tally change and no vote record survives a failed
    /// cast.
    pub fn vote_proposal(
        &mut self,
        voter: u64,
        proposal: ProposalId,
        vote: VoteType,
        bump: u8,
    ) -> (r: Result<(), UnfairDaoError>)
        requires
            old(self)@.wf(),
        ensures
            final(self)@.wf(),
            r == old(self)@.vote_result(voter, proposal.title@, proposal.author, vote),
            final(self)@ == old(self)@.vote_next(
                voter,
                proposal.title@,
                proposal.author,
                vote,
                bump,
            ),
    {
        let mi = match self.find_member(voter) {
            None => {
                return Err(UnfairDaoError::NotFound);
            },
            Some(i) => i,
        };
        let pi = match self.find_proposal(&proposal.title, proposal.author) {
            None => {
                return Err(UnfairDaoError::NotFound);
            },
            Some(i) => i,
        };
        proof {
            self@.lemma_member_idx_is(voter, mi as int);
            self@.lemma_proposal_idx_is(proposal.title@, proposal.author, pi as int);
        }
        let fair = self.members[mi].fair_score;
        if !(self.proposals[pi].score_threshold < fair && fair < self.proposals[pi].score_limit) {
            return Err(UnfairDaoError::Unqualified);
        }
        if self.vote_exists(&proposal.title, proposal.author, voter) {
            return Err(UnfairDaoError::AlreadyExists);
        }
        let p = &self.proposals[pi];
        let (votes_for, votes_against): (u32, u32) = match vote {
            VoteType::Approve => {
                if p.votes_for == u32::MAX {
                    return Err(UnfairDaoError::CountOutOfRange);
                }
                (p.votes_for + 1, p.votes_against)
            },
            VoteType::Reject => {
                if p.votes_against == u32::MAX {
                    return Err(UnfairDaoError::CountOutOfRange);
                }
                (p.votes_for, p.votes_against + 1)
            },
        };
        let ghost s0 = self@;
        let ghost g_title = s0.proposals[pi as int].title;
        let ghost g_author = s0.proposals[pi as int].author;
        let tallied = Proposal {
            bump: p.bump,
            score_limit: p.score_limit,
            score_threshold: p.score_threshold,
            votes_against,
            votes_for,
            quorum: p.quorum,
            end_time: p.end_time,
            status: p.status,
            title: copy_bytes(&p.title),
            description: copy_bytes(&p.description),
            author: p.author,
        };
        self.proposals.set(pi, tallied);
        self.votes.push(Vote { bump, weight: fair, vote, proposal, member: voter });
        proof {
            assert(self@.proposals =~~= s0.proposals.update(
                pi as int,
                DaoData::tallied(s0.proposal(g_title, g_author), vote),
            ));
            assert(self@.votes =~~= s0.votes.push(
                (VoteData {
                    bump,
                    weight: fair,
                    vote,
                    proposal: ProposalIdData { title: g_title, author: g_author },
                    member: voter,
                }),
            ));
            assert(self@ =~~= s0.vote_next(voter, g_title, g_author, vote, bump));
            s0.lemma_vote_next_wf(voter, g_title, g_author, vote, bump);
        }
        Ok(())
    }
}

} // verus!
