use edu_governance::model::{DEFAULT_VOTING_POWER, MAX_QUERY_LIMIT};
use edu_governance::{
    days_to_nanoseconds, ApiError, CollaboratorCall, CreateProposalRequest, Governance,
    GovernanceConfig, ProposalStatus, ProposalType, UserId, VoteType,
};

const DAY: u64 = 86_400_000_000_000;
const START: u64 = 1_000_000;

fn user(name: &str) -> UserId {
    UserId::new(name.to_string())
}

fn request(title: &str, description: &str, kind: ProposalType, days: u64) -> CreateProposalRequest {
    CreateProposalRequest {
        title: title.to_string(),
        description: description.to_string(),
        proposal_type: kind,
        voting_duration_days: days,
    }
}

fn upgrade() -> ProposalType {
    ProposalType::PlatformUpgrade { upgrade_details: "v2".to_string() }
}

/// An engine where "alice" may create proposals.
fn engine() -> Governance {
    let mut g = Governance::new();
    assert!(matches!(g.update_user_voting_power(true, user("alice"), 5000), Ok(true)));
    g
}

fn open_proposal(g: &mut Governance, kind: ProposalType, days: u64, now: u64) -> u64 {
    g.create_proposal(user("alice"), request("Title", "Description", kind, days), now)
        .unwrap()
        .id
}

fn cast(g: &mut Governance, id: u64, voter: &str, power: u64, choice: VoteType, now: u64) {
    assert!(matches!(g.update_user_voting_power(true, user(voter), power), Ok(true)));
    let vote = g.vote_on_proposal(id, user(voter), choice, now).unwrap();
    assert_eq!(vote.voting_power, power);
}

#[test]
fn scenario_passes_after_deadline() {
    let mut g = engine();
    let id = open_proposal(&mut g, upgrade(), 7, START);
    let p = g.get_proposal(id).unwrap();
    assert_eq!(p.minimum_threshold, 10000);
    assert_eq!(p.voting_deadline, START + 7 * DAY);
    cast(&mut g, id, "v1", 12000, VoteType::For, START + 1);
    cast(&mut g, id, "v2", 1000, VoteType::Against, START + 2);
    let after = START + 7 * DAY + 1;
    assert!(matches!(g.vote_on_proposal(id, user("v3"), VoteType::For, after), Err(ApiError::InvalidInput(_))));
    let p = g.get_proposal(id).unwrap();
    assert_eq!(p.status, ProposalStatus::Passed);
    assert_eq!(p.votes_for, 12000);
    assert_eq!(p.votes_against, 1000);
    assert!(g.get_user_vote(id, &user("v3")).is_none());
}

#[test]
fn scenario_rejected_below_threshold() {
    let mut g = engine();
    let id = open_proposal(&mut g, upgrade(), 7, START);
    cast(&mut g, id, "v1", 8000, VoteType::For, START + 1);
    cast(&mut g, id, "v2", 1000, VoteType::Against, START + 2);
    let after = START + 7 * DAY + 1;
    assert!(matches!(g.vote_on_proposal(id, user("v3"), VoteType::For, after), Err(ApiError::InvalidInput(_))));
    assert_eq!(g.get_proposal(id).unwrap().status, ProposalStatus::Rejected);
}

#[test]
fn rejected_when_against_outweighs_for() {
    let mut g = engine();
    let id = open_proposal(&mut g, upgrade(), 1, START);
    cast(&mut g, id, "v1", 12000, VoteType::For, START);
    cast(&mut g, id, "v2", 12000, VoteType::Against, START);
    let _ = g.vote_on_proposal(id, user("v3"), VoteType::For, START + DAY + 1);
    assert_eq!(g.get_proposal(id).unwrap().status, ProposalStatus::Rejected);
}

#[test]
fn scenario_second_vote_already_exists() {
    let mut g = engine();
    let id = open_proposal(&mut g, upgrade(), 7, START);
    let first = g.vote_on_proposal(id, user("bob"), VoteType::For, START + 5).unwrap();
    assert_eq!(first.voting_power, DEFAULT_VOTING_POWER);
    assert_eq!(first.timestamp, START + 5);
    assert_eq!(first.proposal_id, id);
    let again = g.vote_on_proposal(id, user("bob"), VoteType::Against, START + 6);
    assert!(matches!(again, Err(ApiError::AlreadyExists(_))));
    let p = g.get_proposal(id).unwrap();
    assert_eq!((p.votes_for, p.votes_against, p.votes_abstain), (100, 0, 0));
    assert_eq!(g.get_proposal_votes(id).len(), 1);
}

#[test]
fn pair_counts_once_across_calls() {
    let mut g = engine();
    let a = open_proposal(&mut g, upgrade(), 7, START);
    let b = open_proposal(&mut g, upgrade(), 7, START);
    for _ in 0..3 {
        let _ = g.vote_on_proposal(a, user("bob"), VoteType::Abstain, START + 1);
    }
    g.vote_on_proposal(b, user("bob"), VoteType::Abstain, START + 1).unwrap();
    assert_eq!(g.get_proposal(a).unwrap().votes_abstain, 100);
    assert_eq!(g.get_proposal(b).unwrap().votes_abstain, 100);
    assert_eq!(g.get_governance_stats().total_votes, 2);
}

#[test]
fn power_is_read_when_the_vote_is_cast() {
    let mut g = engine();
    let a = open_proposal(&mut g, upgrade(), 7, START);
    let b = open_proposal(&mut g, upgrade(), 7, START);
    g.vote_on_proposal(a, user("bob"), VoteType::For, START).unwrap();
    g.update_user_voting_power(true, user("bob"), 700).unwrap();
    g.vote_on_proposal(b, user("bob"), VoteType::For, START).unwrap();
    assert_eq!(g.get_proposal(a).unwrap().votes_for, 100);
    assert_eq!(g.get_proposal(b).unwrap().votes_for, 700);
}

#[test]
fn tallies_never_decrease_and_freeze_once_closed() {
    let mut g = engine();
    let id = open_proposal(&mut g, upgrade(), 1, START);
    let mut last = 0u64;
    for (i, name) in ["a", "b", "c", "d"].iter().enumerate() {
        let choice = match i % 3 {
            0 => VoteType::For,
            1 => VoteType::Against,
            _ => VoteType::Abstain,
        };
        g.vote_on_proposal(id, user(name), choice, START + i as u64).unwrap();
        let p = g.get_proposal(id).unwrap();
        let total = p.votes_for + p.votes_against + p.votes_abstain;
        assert!(total >= last);
        last = total;
    }
    assert_eq!(last, 400);
    let _ = g.vote_on_proposal(id, user("e"), VoteType::For, START + DAY + 1);
    let closed = g.get_proposal(id).unwrap();
    assert_ne!(closed.status, ProposalStatus::Active);
    let _ = g.vote_on_proposal(id, user("f"), VoteType::For, START);
    let p = g.get_proposal(id).unwrap();
    assert_eq!(p.votes_for + p.votes_against + p.votes_abstain, 400);
}

#[test]
fn closed_proposal_refuses_every_later_vote() {
    let mut g = engine();
    let id = open_proposal(&mut g, upgrade(), 1, START);
    let late = START + DAY + 1;
    assert!(matches!(g.vote_on_proposal(id, user("x"), VoteType::For, late), Err(ApiError::InvalidInput(_))));
    assert_eq!(g.get_proposal(id).unwrap().status, ProposalStatus::Rejected);
    // Even a vote dated before the deadline is refused now.
    assert!(matches!(g.vote_on_proposal(id, user("y"), VoteType::For, START), Err(ApiError::InvalidInput(_))));
    assert!(g.get_proposal_votes(id).is_empty());
}

#[test]
fn vote_at_deadline_is_still_counted() {
    let mut g = engine();
    let id = open_proposal(&mut g, upgrade(), 1, START);
    g.vote_on_proposal(id, user("x"), VoteType::For, START + DAY).unwrap();
    assert_eq!(g.get_proposal(id).unwrap().status, ProposalStatus::Active);
}

/// Opens a proposal of `kind`, gives it 12000 for, and closes it as passed.
fn passed(g: &mut Governance, kind: ProposalType) -> u64 {
    let id = open_proposal(g, kind, 7, START);
    cast(g, id, "whale", 12000, VoteType::For, START + 1);
    let _ = g.vote_on_proposal(id, user("late"), VoteType::For, START + 7 * DAY + 1);
    assert_eq!(g.get_proposal(id).unwrap().status, ProposalStatus::Passed);
    id
}

#[test]
fn scenario_execute_before_delay_fails() {
    let mut g = engine();
    let id = passed(&mut g, upgrade());
    let deadline = START + 7 * DAY;
    let too_early = deadline + 2 * DAY - 1;
    assert!(matches!(g.execute_proposal(id, too_early, true), Err(ApiError::InvalidInput(_))));
    let p = g.get_proposal(id).unwrap();
    assert_eq!(p.executed_at, None);
    assert_eq!(p.status, ProposalStatus::Passed);
    assert!(matches!(g.collaborator_call(id, too_early), Err(ApiError::InvalidInput(_))));
    assert_eq!(g.execute_proposal(id, deadline + 2 * DAY, true).unwrap(), true);
    let p = g.get_proposal(id).unwrap();
    assert_eq!(p.status, ProposalStatus::Executed);
    assert_eq!(p.executed_at, Some(deadline + 2 * DAY));
    assert!(matches!(g.execute_proposal(id, deadline + 3 * DAY, true), Err(ApiError::InvalidInput(_))));
}

#[test]
fn execute_refuses_unknown_active_and_rejected() {
    let mut g = engine();
    assert!(matches!(g.execute_proposal(9, START, true), Err(ApiError::NotFound(_))));
    let id = open_proposal(&mut g, upgrade(), 1, START);
    assert!(matches!(g.execute_proposal(id, u64::MAX, true), Err(ApiError::InvalidInput(_))));
    let _ = g.vote_on_proposal(id, user("x"), VoteType::For, START + DAY + 1);
    assert!(matches!(g.execute_proposal(id, u64::MAX, true), Err(ApiError::InvalidInput(_))));
}

#[test]
fn execution_delay_too_large_never_elapses() {
    let mut g = engine();
    let id = passed(&mut g, upgrade());
    let mut config = g.get_config();
    config.execution_delay_days = u64::MAX / 1000;
    g.update_governance_config(true, config).unwrap();
    assert!(matches!(g.execute_proposal(id, u64::MAX, true), Err(ApiError::InvalidInput(_))));
}

#[test]
fn scenario_parameter_change_voting_period() {
    let mut g = engine();
    let kind = ProposalType::GovernanceParameter {
        parameter: "voting_period_days".to_string(),
        new_value: "14".to_string(),
    };
    let id = passed(&mut g, kind);
    let before = g.get_config();
    let when = START + 9 * DAY;
    assert!(matches!(g.collaborator_call(id, when), Ok(None)));
    assert_eq!(g.execute_proposal(id, when, false).unwrap(), true);
    let after = g.get_config();
    assert_eq!(after.voting_period_days, 14);
    assert_eq!(after.minimum_proposal_threshold, before.minimum_proposal_threshold);
    assert_eq!(after.minimum_voting_threshold, before.minimum_voting_threshold);
    assert_eq!(g.get_proposal(id).unwrap().status, ProposalStatus::Executed);
}

#[test]
fn scenario_parameter_change_unparsable_value() {
    let mut g = engine();
    let kind = ProposalType::GovernanceParameter {
        parameter: "voting_period_days".to_string(),
        new_value: "abc".to_string(),
    };
    let id = passed(&mut g, kind);
    let before = g.get_config();
    assert_eq!(g.execute_proposal(id, START + 9 * DAY, true).unwrap(), false);
    assert_eq!(g.get_config(), before);
    let p = g.get_proposal(id).unwrap();
    assert_eq!(p.status, ProposalStatus::Passed);
    assert_eq!(p.executed_at, None);
}

#[test]
fn parameter_change_thresholds_and_unknown_name() {
    let mut g = engine();
    let id = passed(&mut g, ProposalType::GovernanceParameter {
        parameter: "minimum_voting_threshold".to_string(),
        new_value: "+500".to_string(),
    });
    assert!(g.execute_proposal(id, START + 9 * DAY, true).unwrap());
    assert_eq!(g.get_config().minimum_voting_threshold, 500);
    let id = passed(&mut g, ProposalType::GovernanceParameter {
        parameter: "proposal_fee".to_string(),
        new_value: "1".to_string(),
    });
    assert!(!g.execute_proposal(id, START + 9 * DAY, true).unwrap());
    assert_eq!(g.get_config().proposal_fee, 10);
}

#[test]
fn collaborator_decides_course_approval() {
    let mut g = engine();
    let id = passed(&mut g, ProposalType::CourseApproval { course_id: "course_3".to_string() });
    let when = START + 9 * DAY;
    match g.collaborator_call(id, when) {
        Ok(Some(CollaboratorCall::ApproveCourse { course_id })) => assert_eq!(course_id, "course_3"),
        other => panic!("unexpected {:?}", other),
    }
    assert_eq!(g.execute_proposal(id, when, false).unwrap(), false);
    assert_eq!(g.get_proposal(id).unwrap().status, ProposalStatus::Passed);
    assert_eq!(g.execute_proposal(id, when + 1, true).unwrap(), true);
    assert_eq!(g.get_proposal(id).unwrap().executed_at, Some(when + 1));
}

#[test]
fn collaborator_call_for_instructor_and_tokenomics() {
    let mut g = engine();
    let id = passed(&mut g, ProposalType::InstructorVerification { instructor_id: user("carol") });
    match g.collaborator_call(id, START + 9 * DAY) {
        Ok(Some(CollaboratorCall::VerifyInstructor { instructor_id })) => {
            assert_eq!(instructor_id.text, "carol")
        }
        other => panic!("unexpected {:?}", other),
    }
    let id = passed(&mut g, ProposalType::TokenomicsChange { change_details: "x".to_string() });
    assert!(matches!(g.collaborator_call(id, START + 9 * DAY), Ok(None)));
    assert!(g.execute_proposal(id, START + 9 * DAY, false).unwrap());
}

#[test]
fn create_refuses_blank_text() {
    let mut g = engine();
    let r = g.create_proposal(user("alice"), request(" \t\n", "d", upgrade(), 7), START);
    assert!(matches!(r, Err(ApiError::InvalidInput(_))));
    let r = g.create_proposal(user("alice"), request("t", "\u{3000}", upgrade(), 7), START);
    assert!(matches!(r, Err(ApiError::InvalidInput(_))));
    assert_eq!(g.get_governance_stats().total_proposals, 0);
}

#[test]
fn create_requires_power() {
    let mut g = Governance::new();
    let r = g.create_proposal(user("dave"), request("t", "d", upgrade(), 7), START);
    assert!(matches!(r, Err(ApiError::InsufficientPermissions)));
    g.update_user_voting_power(true, user("dave"), 1000).unwrap();
    let p = g.create_proposal(user("dave"), request("t", "d", upgrade(), 7), START).unwrap();
    assert_eq!(p.id, 1);
    assert_eq!(p.status, ProposalStatus::Active);
    assert_eq!(p.proposer_id.text, "dave");
    assert_eq!(p.created_at, START);
    assert_eq!((p.votes_for, p.votes_against, p.votes_abstain), (0, 0, 0));
}

#[test]
fn create_refuses_deadline_past_clock() {
    let mut g = engine();
    let r = g.create_proposal(user("alice"), request("t", "d", upgrade(), 1), u64::MAX - DAY + 1);
    assert!(matches!(r, Err(ApiError::InvalidInput(_))));
    let p = g.create_proposal(user("alice"), request("t", "d", upgrade(), 1), u64::MAX - DAY).unwrap();
    assert_eq!(p.voting_deadline, u64::MAX);
    let r = g.create_proposal(user("alice"), request("t", "d", upgrade(), u64::MAX), START);
    assert!(matches!(r, Err(ApiError::InvalidInput(_))));
}

#[test]
fn ids_increase_only_on_success() {
    let mut g = engine();
    assert_eq!(open_proposal(&mut g, upgrade(), 7, START), 1);
    let _ = g.create_proposal(user("alice"), request("", "d", upgrade(), 7), START);
    assert_eq!(open_proposal(&mut g, upgrade(), 7, START), 2);
}

#[test]
fn threshold_snapshot_survives_config_change() {
    let mut g = engine();
    let id = open_proposal(&mut g, upgrade(), 7, START);
    let mut config = g.get_config();
    config.minimum_voting_threshold = 1;
    g.update_governance_config(true, config).unwrap();
    assert_eq!(g.get_proposal(id).unwrap().minimum_threshold, 10000);
    let later = open_proposal(&mut g, upgrade(), 7, START);
    assert_eq!(g.get_proposal(later).unwrap().minimum_threshold, 1);
}

#[test]
fn vote_errors() {
    let mut g = engine();
    assert!(matches!(g.vote_on_proposal(1, user("x"), VoteType::For, START), Err(ApiError::NotFound(_))));
    assert!(matches!(g.vote_on_proposal(0, user("x"), VoteType::For, START), Err(ApiError::NotFound(_))));
    assert!(matches!(g.get_proposal(1), Err(ApiError::NotFound(_))));
}

#[test]
fn tally_overflow_is_refused() {
    let mut g = engine();
    let id = open_proposal(&mut g, upgrade(), 7, START);
    cast(&mut g, id, "a", u64::MAX, VoteType::For, START);
    g.update_user_voting_power(true, user("b"), 1).unwrap();
    let r = g.vote_on_proposal(id, user("b"), VoteType::For, START);
    assert!(matches!(r, Err(ApiError::InternalError(_))));
    assert_eq!(g.get_proposal(id).unwrap().votes_for, u64::MAX);
    assert!(g.get_user_vote(id, &user("b")).is_none());
}

#[test]
fn admin_gate() {
    let mut g = Governance::new();
    assert!(matches!(g.update_user_voting_power(false, user("x"), 5), Err(ApiError::InsufficientPermissions)));
    assert_eq!(g.get_user_voting_power(&user("x")), 100);
    assert!(matches!(g.update_governance_config(false, GovernanceConfig::default()), Err(ApiError::InsufficientPermissions)));
    g.update_user_voting_power(true, user("x"), 5).unwrap();
    g.update_user_voting_power(true, user("x"), 6).unwrap();
    assert_eq!(g.get_user_voting_power(&user("x")), 6);
    assert_eq!(g.get_user_voting_power(&user("y")), 100);
}

#[test]
fn default_config_values() {
    let c = GovernanceConfig::default();
    assert_eq!(c.minimum_proposal_threshold, 1000);
    assert_eq!(c.minimum_voting_threshold, 10000);
    assert_eq!(c.voting_period_days, 7);
    assert_eq!(c.execution_delay_days, 2);
    assert_eq!(c.proposal_fee, 10);
    assert_eq!(Governance::new().get_config(), c);
}

#[test]
fn days_convert_to_nanoseconds() {
    assert_eq!(days_to_nanoseconds(0), 0);
    assert_eq!(days_to_nanoseconds(7), 604_800_000_000_000);
}

#[test]
fn listings_are_newest_first_and_repeatable() {
    let mut g = engine();
    let a = open_proposal(&mut g, upgrade(), 7, START + 10);
    let b = open_proposal(&mut g, upgrade(), 7, START + 30);
    let c = open_proposal(&mut g, upgrade(), 7, START + 20);
    let d = open_proposal(&mut g, upgrade(), 7, START + 30);
    let first: Vec<u64> = g.get_active_proposals(None).iter().map(|p| p.id).collect();
    let second: Vec<u64> = g.get_active_proposals(None).iter().map(|p| p.id).collect();
    assert_eq!(first, vec![d, b, c, a]);
    assert_eq!(first, second);
    let two: Vec<u64> = g.get_active_proposals(Some(2)).iter().map(|p| p.id).collect();
    assert_eq!(two, vec![d, b]);
    assert!(g.get_active_proposals(Some(0)).is_empty());
    // Close `c` as rejected.
    let _ = g.vote_on_proposal(c, user("x"), VoteType::For, START + 20 + 7 * DAY + 1);
    let active: Vec<u64> = g.get_active_proposals(None).iter().map(|p| p.id).collect();
    assert_eq!(active, vec![d, b, a]);
    let rejected: Vec<u64> = g
        .get_proposal_history(Some(ProposalStatus::Rejected), None)
        .iter()
        .map(|p| p.id)
        .collect();
    assert_eq!(rejected, vec![c]);
    let all: Vec<u64> = g.get_proposal_history(None, Some(3)).iter().map(|p| p.id).collect();
    assert_eq!(all, vec![d, b, c]);
    let again: Vec<u64> = g.get_proposal_history(None, Some(3)).iter().map(|p| p.id).collect();
    assert_eq!(all, again);
}

#[test]
fn listing_limits_default_and_cap() {
    let mut g = engine();
    for i in 0..105u64 {
        open_proposal(&mut g, upgrade(), 7, START + i);
    }
    assert_eq!(g.get_active_proposals(None).len(), 10);
    assert_eq!(g.get_active_proposals(Some(500)).len(), MAX_QUERY_LIMIT as usize);
    assert_eq!(g.get_proposal_history(None, Some(101)).len(), 100);
    assert_eq!(g.get_active_proposals(Some(3))[0].id, 105);
}

#[test]
fn user_proposals_and_votes() {
    let mut g = engine();
    g.update_user_voting_power(true, user("erin"), 1000).unwrap();
    let a = open_proposal(&mut g, upgrade(), 7, START);
    let e = g.create_proposal(user("erin"), request("t", "d", upgrade(), 7), START).unwrap().id;
    let b = open_proposal(&mut g, upgrade(), 7, START);
    let mine: Vec<u64> = g.get_user_proposals(&user("alice")).iter().map(|p| p.id).collect();
    assert_eq!(mine, vec![a, b]);
    let hers: Vec<u64> = g.get_user_proposals(&user("erin")).iter().map(|p| p.id).collect();
    assert_eq!(hers, vec![e]);
    assert!(g.get_user_proposals(&user("nobody")).is_empty());
    g.vote_on_proposal(a, user("v1"), VoteType::For, START).unwrap();
    g.vote_on_proposal(b, user("v2"), VoteType::Against, START).unwrap();
    g.vote_on_proposal(a, user("v3"), VoteType::Abstain, START).unwrap();
    let votes: Vec<String> = g.get_proposal_votes(a).iter().map(|v| v.voter_id.text.clone()).collect();
    assert_eq!(votes, vec!["v1".to_string(), "v3".to_string()]);
    let v = g.get_user_vote(b, &user("v2")).unwrap();
    assert_eq!(v.vote_type, VoteType::Against);
    assert!(g.get_user_vote(a, &user("v2")).is_none());
}

#[test]
fn stats_count_by_status() {
    let mut g = engine();
    let id = passed(&mut g, upgrade());
    open_proposal(&mut g, upgrade(), 7, START);
    let closed = open_proposal(&mut g, upgrade(), 1, START);
    let _ = g.vote_on_proposal(closed, user("z"), VoteType::For, START + DAY + 1);
    g.execute_proposal(id, START + 9 * DAY, true).unwrap();
    let s = g.get_governance_stats();
    assert_eq!(s.total_proposals, 3);
    assert_eq!(s.active_proposals, 1);
    assert_eq!(s.executed_proposals, 1);
    assert_eq!(s.total_votes, 1);
    assert_eq!(s.governance_config, GovernanceConfig::default());
}
