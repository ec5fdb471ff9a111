use unfair_dao::dao::Dao;
use unfair_dao::error::UnfairDaoError;
use unfair_dao::state::Proposal;
use unfair_dao::state::ProposalId;
use unfair_dao::state::StatusType;
use unfair_dao::state::TierType;
use unfair_dao::state::VoteType;

fn register(d: &mut Dao, identity: u64, fair_score: u16) -> Result<(), UnfairDaoError> {
    d.register_member(
        identity,
        fair_score,
        7,
        9,
        TierType::Bronze,
        b"alice".to_vec(),
        b"alice_x".to_vec(),
        1,
    )
}

fn submit(
    d: &mut Dao,
    author: u64,
    title: &[u8],
    score_limit: u16,
    score_threshold: u16,
) -> Result<(), UnfairDaoError> {
    d.submit_proposal(author, title.to_vec(), b"a proposal".to_vec(), score_limit, score_threshold, 3, 1_700_000_000, 2)
}

fn pid(title: &[u8], author: u64) -> ProposalId {
    ProposalId { title: title.to_vec(), author }
}

#[test]
fn register_submit_vote_approve() {
    let mut d = Dao::new();
    assert_eq!(register(&mut d, 1, 50), Ok(()));
    assert_eq!(submit(&mut d, 1, b"t", 100, 10), Ok(()));
    assert_eq!(d.vote_proposal(1, pid(b"t", 1), VoteType::Approve, 3), Ok(()));
    assert_eq!(d.proposals[0].votes_for, 1);
    assert_eq!(d.proposals[0].votes_against, 0);
    assert_eq!(d.votes.len(), 1);
    assert_eq!(d.votes[0].weight, 50);
    assert_eq!(d.votes[0].vote, VoteType::Approve);
    assert_eq!(d.votes[0].member, 1);
    assert_eq!(d.votes[0].proposal.title, b"t".to_vec());
    assert_eq!(d.votes[0].proposal.author, 1);
}

#[test]
fn vote_reject_counts_against() {
    let mut d = Dao::new();
    register(&mut d, 1, 50).unwrap();
    submit(&mut d, 1, b"t", 100, 10).unwrap();
    assert_eq!(d.vote_proposal(1, pid(b"t", 1), VoteType::Reject, 3), Ok(()));
    assert_eq!(d.proposals[0].votes_for, 0);
    assert_eq!(d.proposals[0].votes_against, 1);
    assert_eq!(d.votes[0].vote, VoteType::Reject);
}

#[test]
fn fair_score_at_threshold_rejected() {
    let mut d = Dao::new();
    register(&mut d, 1, 10).unwrap();
    submit(&mut d, 1, b"t", 100, 10).unwrap();
    assert_eq!(
        d.vote_proposal(1, pid(b"t", 1), VoteType::Approve, 3),
        Err(UnfairDaoError::Unqualified)
    );
    assert_eq!(d.proposals[0].votes_for, 0);
    assert_eq!(d.votes.len(), 0);
}

#[test]
fn fair_score_at_limit_rejected() {
    let mut d = Dao::new();
    register(&mut d, 1, 100).unwrap();
    submit(&mut d, 1, b"t", 100, 10).unwrap();
    assert_eq!(
        d.vote_proposal(1, pid(b"t", 1), VoteType::Approve, 3),
        Err(UnfairDaoError::Unqualified)
    );
    assert_eq!(d.votes.len(), 0);
}

#[test]
fn fair_score_below_threshold_rejected() {
    let mut d = Dao::new();
    register(&mut d, 1, 3).unwrap();
    submit(&mut d, 1, b"t", 100, 10).unwrap();
    assert_eq!(
        d.vote_proposal(1, pid(b"t", 1), VoteType::Reject, 3),
        Err(UnfairDaoError::Unqualified)
    );
    assert_eq!(d.proposals[0].votes_against, 0);
    assert_eq!(d.votes.len(), 0);
}

#[test]
fn fair_score_above_limit_rejected() {
    let mut d = Dao::new();
    register(&mut d, 1, 60000).unwrap();
    submit(&mut d, 1, b"t", 100, 10).unwrap();
    assert_eq!(
        d.vote_proposal(1, pid(b"t", 1), VoteType::Approve, 3),
        Err(UnfairDaoError::Unqualified)
    );
    assert_eq!(d.votes.len(), 0);
}

#[test]
fn fair_score_inside_window_accepted() {
    let mut d = Dao::new();
    register(&mut d, 1, 11).unwrap();
    submit(&mut d, 1, b"t", 12, 10).unwrap();
    assert_eq!(d.vote_proposal(1, pid(b"t", 1), VoteType::Approve, 3), Ok(()));
}

#[test]
fn second_registration_rejected() {
    let mut d = Dao::new();
    assert_eq!(register(&mut d, 1, 50), Ok(()));
    assert_eq!(register(&mut d, 1, 99), Err(UnfairDaoError::AlreadyExists));
    assert_eq!(d.members.len(), 1);
    assert_eq!(d.members[0].fair_score, 50);
}

#[test]
fn registrations_of_distinct_identities_coexist() {
    let mut d = Dao::new();
    assert_eq!(register(&mut d, 1, 50), Ok(()));
    assert_eq!(register(&mut d, 2, 60), Ok(()));
    assert_eq!(d.members.len(), 2);
}

#[test]
fn update_missing_member_not_found() {
    let mut d = Dao::new();
    assert_eq!(
        d.update_member(1, 5, 6, 7, TierType::Gold),
        Err(UnfairDaoError::NotFound)
    );
    assert_eq!(d.members.len(), 0);
}

#[test]
fn update_overwrites_only_mutable_fields() {
    let mut d = Dao::new();
    register(&mut d, 1, 50).unwrap();
    assert_eq!(d.update_member(1, 51, 52, 53, TierType::Platinum), Ok(()));
    assert_eq!(d.members.len(), 1);
    let m = &d.members[0];
    assert_eq!(m.fair_score, 51);
    assert_eq!(m.social_score, 52);
    assert_eq!(m.wallet_score, 53);
    assert_eq!(m.tier, TierType::Platinum);
    assert_eq!(m.username, b"alice".to_vec());
    assert_eq!(m.x_username, b"alice_x".to_vec());
    assert_eq!(m.wallet, 1);
    assert_eq!(m.bump, 1);
}

#[test]
fn submit_initializes_status_and_tally() {
    let mut d = Dao::new();
    register(&mut d, 1, 50).unwrap();
    // inverted window, zero quorum, past end_time: stored as given, tally fresh
    assert_eq!(
        d.submit_proposal(1, b"odd".to_vec(), b"d".to_vec(), 0, 65535, 0, -5, 9),
        Ok(())
    );
    let p = &d.proposals[0];
    assert_eq!(p.status, StatusType::Active);
    assert_eq!(p.votes_for, 0);
    assert_eq!(p.votes_against, 0);
    assert_eq!(p.score_limit, 0);
    assert_eq!(p.score_threshold, 65535);
    assert_eq!(p.quorum, 0);
    assert_eq!(p.end_time, -5);
    assert_eq!(p.author, 1);
    assert_eq!(p.bump, 9);
}

#[test]
fn submit_missing_author_not_found() {
    let mut d = Dao::new();
    assert_eq!(submit(&mut d, 1, b"t", 100, 10), Err(UnfairDaoError::NotFound));
    assert_eq!(d.proposals.len(), 0);
}

#[test]
fn duplicate_proposal_rejected() {
    let mut d = Dao::new();
    register(&mut d, 1, 50).unwrap();
    assert_eq!(submit(&mut d, 1, b"t", 100, 10), Ok(()));
    assert_eq!(submit(&mut d, 1, b"t", 90, 20), Err(UnfairDaoError::AlreadyExists));
    assert_eq!(d.proposals.len(), 1);
    assert_eq!(d.proposals[0].score_limit, 100);
}

#[test]
fn same_title_different_author_coexists() {
    let mut d = Dao::new();
    register(&mut d, 1, 50).unwrap();
    register(&mut d, 2, 50).unwrap();
    assert_eq!(submit(&mut d, 1, b"t", 100, 10), Ok(()));
    assert_eq!(submit(&mut d, 2, b"t", 100, 10), Ok(()));
    assert_eq!(d.proposals.len(), 2);
}

#[test]
fn double_vote_rejected() {
    let mut d = Dao::new();
    register(&mut d, 1, 50).unwrap();
    submit(&mut d, 1, b"t", 100, 10).unwrap();
    assert_eq!(d.vote_proposal(1, pid(b"t", 1), VoteType::Approve, 3), Ok(()));
    assert_eq!(
        d.vote_proposal(1, pid(b"t", 1), VoteType::Reject, 3),
        Err(UnfairDaoError::AlreadyExists)
    );
    assert_eq!(d.proposals[0].votes_for, 1);
    assert_eq!(d.proposals[0].votes_against, 0);
    assert_eq!(d.votes.len(), 1);
}

#[test]
fn votes_of_two_members_both_count() {
    let mut d = Dao::new();
    register(&mut d, 1, 50).unwrap();
    register(&mut d, 2, 60).unwrap();
    submit(&mut d, 1, b"t", 100, 10).unwrap();
    assert_eq!(d.vote_proposal(1, pid(b"t", 1), VoteType::Approve, 3), Ok(()));
    assert_eq!(d.vote_proposal(2, pid(b"t", 1), VoteType::Reject, 4), Ok(()));
    assert_eq!(d.proposals[0].votes_for, 1);
    assert_eq!(d.proposals[0].votes_against, 1);
    assert_eq!(d.votes.len(), 2);
    assert_eq!(d.votes[1].weight, 60);
}

#[test]
fn vote_weight_is_a_snapshot() {
    let mut d = Dao::new();
    register(&mut d, 1, 50).unwrap();
    submit(&mut d, 1, b"t", 100, 10).unwrap();
    d.vote_proposal(1, pid(b"t", 1), VoteType::Approve, 3).unwrap();
    d.update_member(1, 99, 0, 0, TierType::Gold).unwrap();
    assert_eq!(d.votes[0].weight, 50);
}

#[test]
fn vote_by_missing_member_not_found() {
    let mut d = Dao::new();
    register(&mut d, 1, 50).unwrap();
    submit(&mut d, 1, b"t", 100, 10).unwrap();
    assert_eq!(
        d.vote_proposal(2, pid(b"t", 1), VoteType::Approve, 3),
        Err(UnfairDaoError::NotFound)
    );
    assert_eq!(d.votes.len(), 0);
}

#[test]
fn vote_on_missing_proposal_not_found() {
    let mut d = Dao::new();
    register(&mut d, 1, 50).unwrap();
    submit(&mut d, 1, b"t", 100, 10).unwrap();
    assert_eq!(
        d.vote_proposal(1, pid(b"other", 1), VoteType::Approve, 3),
        Err(UnfairDaoError::NotFound)
    );
    assert_eq!(
        d.vote_proposal(1, pid(b"t", 2), VoteType::Approve, 3),
        Err(UnfairDaoError::NotFound)
    );
}

#[test]
fn votes_for_overflow_rejected() {
    let mut d = Dao::new();
    register(&mut d, 1, 50).unwrap();
    d.proposals.push(Proposal {
        bump: 0,
        score_limit: 100,
        score_threshold: 10,
        votes_against: 0,
        votes_for: u32::MAX,
        quorum: 0,
        end_time: 0,
        status: StatusType::Active,
        title: b"t".to_vec(),
        description: b"d".to_vec(),
        author: 1,
    });
    assert_eq!(
        d.vote_proposal(1, pid(b"t", 1), VoteType::Approve, 3),
        Err(UnfairDaoError::CountOutOfRange)
    );
    assert_eq!(d.proposals[0].votes_for, u32::MAX);
    assert_eq!(d.proposals[0].votes_against, 0);
    assert_eq!(d.votes.len(), 0);
}

#[test]
fn votes_against_overflow_rejected() {
    let mut d = Dao::new();
    register(&mut d, 1, 50).unwrap();
    d.proposals.push(Proposal {
        bump: 0,
        score_limit: 100,
        score_threshold: 10,
        votes_against: u32::MAX,
        votes_for: 7,
        quorum: 0,
        end_time: 0,
        status: StatusType::Active,
        title: b"t".to_vec(),
        description: b"d".to_vec(),
        author: 1,
    });
    assert_eq!(
        d.vote_proposal(1, pid(b"t", 1), VoteType::Reject, 3),
        Err(UnfairDaoError::CountOutOfRange)
    );
    assert_eq!(d.proposals[0].votes_against, u32::MAX);
    assert_eq!(d.proposals[0].votes_for, 7);
    assert_eq!(d.votes.len(), 0);
}

#[test]
fn overflowed_counter_does_not_block_other_side() {
    let mut d = Dao::new();
    register(&mut d, 1, 50).unwrap();
    d.proposals.push(Proposal {
        bump: 0,
        score_limit: 100,
        score_threshold: 10,
        votes_against: 0,
        votes_for: u32::MAX,
        quorum: 0,
        end_time: 0,
        status: StatusType::Active,
        title: b"t".to_vec(),
        description: b"d".to_vec(),
        author: 1,
    });
    assert_eq!(d.vote_proposal(1, pid(b"t", 1), VoteType::Reject, 3), Ok(()));
    assert_eq!(d.proposals[0].votes_against, 1);
    assert_eq!(d.proposals[0].votes_for, u32::MAX);
}

#[test]
fn register_name_too_long_rejected() {
    let mut d = Dao::new();
    let long = vec![b'a'; 17];
    assert_eq!(
        d.register_member(1, 50, 0, 0, TierType::Bronze, long.clone(), b"x".to_vec(), 0),
        Err(UnfairDaoError::TooLong)
    );
    assert_eq!(
        d.register_member(1, 50, 0, 0, TierType::Bronze, b"u".to_vec(), long, 0),
        Err(UnfairDaoError::TooLong)
    );
    assert_eq!(d.members.len(), 0);
}

#[test]
fn register_name_at_bound_accepted() {
    let mut d = Dao::new();
    let max = vec![b'a'; 16];
    assert_eq!(
        d.register_member(1, 50, 0, 0, TierType::Bronze, max.clone(), max, 0),
        Ok(())
    );
    assert_eq!(d.members.len(), 1);
}

#[test]
fn submit_title_or_description_too_long_rejected() {
    let mut d = Dao::new();
    register(&mut d, 1, 50).unwrap();
    let long_title = vec![b't'; 65];
    let long_desc = vec![b'd'; 1029];
    assert_eq!(
        d.submit_proposal(1, long_title, b"d".to_vec(), 100, 10, 0, 0, 0),
        Err(UnfairDaoError::TooLong)
    );
    assert_eq!(
        d.submit_proposal(1, b"t".to_vec(), long_desc, 100, 10, 0, 0, 0),
        Err(UnfairDaoError::TooLong)
    );
    assert_eq!(d.proposals.len(), 0);
}

#[test]
fn submit_title_and_description_at_bound_accepted() {
    let mut d = Dao::new();
    register(&mut d, 1, 50).unwrap();
    let title = vec![b't'; 64];
    let desc = vec![b'd'; 1028];
    assert_eq!(d.submit_proposal(1, title, desc, 100, 10, 0, 0, 0), Ok(()));
    assert_eq!(d.proposals.len(), 1);
}

#[test]
fn empty_names_and_title_accepted() {
    let mut d = Dao::new();
    assert_eq!(
        d.register_member(1, 50, 0, 0, TierType::Silver, Vec::new(), Vec::new(), 0),
        Ok(())
    );
    assert_eq!(
        d.submit_proposal(1, Vec::new(), Vec::new(), 100, 10, 0, 0, 0),
        Ok(())
    );
    assert_eq!(d.vote_proposal(1, ProposalId { title: Vec::new(), author: 1 }, VoteType::Approve, 0), Ok(()));
    assert_eq!(d.proposals[0].votes_for, 1);
}
