//! Proposals, ballots, and the values exchanged with callers.
use vstd::prelude::*;
use crate::config::GovernanceConfig;
use crate::identity::UserId;

verus! {

/// Where a proposal stands. The order of events is Active, then Passed or
/// Rejected once the voting deadline is found to have passed, then Executed
/// for a passed proposal whose execution succeeded. A proposal still Active
/// past its deadline stays open to resolution by the next vote attempt.
#[derive(Clone, Copy, Debug, PartialEq, Eq, Structural)]
pub enum ProposalStatus {
    Active,
    Passed,
    Rejected,
    Executed,
}

/// A ballot's choice.
#[derive(Clone, Copy, Debug, PartialEq, Eq, Structural)]
pub enum VoteType {
    For,
    Against,
    Abstain,
}

/// What a proposal asks for, and so what its execution does.
#[derive(Debug)]
pub enum ProposalType {
    CourseApproval { course_id: String },
    InstructorVerification { instructor_id: UserId },
    PlatformUpgrade { upgrade_details: String },
    TokenomicsChange { change_details: String },
    GovernanceParameter { parameter: String, new_value: String },
}

impl Clone for ProposalType {
    fn clone(&self) -> (r: Self)
        ensures
            r == *self,
    {
        match self {
            ProposalType::CourseApproval { course_id } => ProposalType::CourseApproval {
                course_id: course_id.clone(),
            },
            ProposalType::InstructorVerification { instructor_id } =>
                ProposalType::InstructorVerification { instructor_id: instructor_id.clone() },
            ProposalType::PlatformUpgrade { upgrade_details } => ProposalType::PlatformUpgrade {
                upgrade_details: upgrade_details.clone(),
            },
            ProposalType::TokenomicsChange { change_details } => ProposalType::TokenomicsChange {
                change_details: change_details.clone(),
            },
            ProposalType::GovernanceParameter { parameter, new_value } =>
                ProposalType::GovernanceParameter {
                    parameter: parameter.clone(),
                    new_value: new_value.clone(),
                },
        }
    }
}

/// A governance proposal with its running tallies.
#[derive(Debug)]
pub struct Proposal {
    pub id: u64,
    pub proposer_id: UserId,
    pub title: String,
    pub description: String,
    pub proposal_type: ProposalType,
    pub status: ProposalStatus,
    pub created_at: u64,
    pub voting_deadline: u64,
    pub votes_for: u64,
    pub votes_against: u64,
    pub votes_abstain: u64,
    /// The passing threshold in force when the proposal was created.
    pub minimum_threshold: u64,
    pub executed_at: Option<u64>,
}

impl Clone for Proposal {
    fn clone(&self) -> (r: Self)
        ensures
            r == *self,
    {
        Proposal {
            id: self.id,
            proposer_id: self.proposer_id.clone(),
            title: self.title.clone(),
            description: self.description.clone(),
            proposal_type: self.proposal_type.clone(),
            status: self.status,
            created_at: self.created_at,
            voting_deadline: self.voting_deadline,
            votes_for: self.votes_for,
            votes_against: self.votes_against,
            votes_abstain: self.votes_abstain,
            minimum_threshold: self.minimum_threshold,
            executed_at: self.executed_at,
        }
    }
}

/// A recorded ballot; its weight is the voter's power when it was cast.
#[derive(Debug)]
pub struct Vote {
    pub proposal_id: u64,
    pub voter_id: UserId,
    pub vote_type: VoteType,
    pub voting_power: u64,
    pub timestamp: u64,
}

impl Clone for Vote {
    fn clone(&self) -> (r: Self)
        ensures
            r == *self,
    {
        Vote {
            proposal_id: self.proposal_id,
            voter_id: self.voter_id.clone(),
            vote_type: self.vote_type,
            voting_power: self.voting_power,
            timestamp: self.timestamp,
        }
    }
}

/// What a caller supplies to open a proposal.
#[derive(Debug)]
pub struct CreateProposalRequest {
    pub title: String,
    pub description: String,
    pub proposal_type: ProposalType,
    pub voting_duration_days: u64,
}

impl Clone for CreateProposalRequest {
    fn clone(&self) -> (r: Self)
        ensures
            r == *self,
    {
        CreateProposalRequest {
            title: self.title.clone(),
            description: self.description.clone(),
            proposal_type: self.proposal_type.clone(),
            voting_duration_days: self.voting_duration_days,
        }
    }
}

/// Counts over the ledgers, with the configuration in force.
#[derive(Clone, Copy, Debug, PartialEq, Eq, Structural)]
pub struct GovernanceStats {
    pub total_proposals: u64,
    pub active_proposals: u64,
    pub executed_proposals: u64,
    pub total_votes: u64,
    pub governance_config: GovernanceConfig,
}

/// The status a proposal takes when its voting period is over: it passes
/// when more weight is for it than against it and the weight for it reaches
/// its threshold.
pub open spec fn resolved_status(p: Proposal) -> ProposalStatus {
    if p.votes_for > p.votes_against && p.votes_for >= p.minimum_threshold {
        ProposalStatus::Passed
    } else {
        ProposalStatus::Rejected
    }
}

/// Sum of the three tallies of a proposal.
pub open spec fn total_weight(p: Proposal) -> int {
    p.votes_for + p.votes_against + p.votes_abstain
}

impl Proposal {
    /// The status that the end of the voting period gives this proposal.
    pub fn resolve_status(&self) -> (r: ProposalStatus)
        ensures
            r == resolved_status(*self),
    {
        if self.votes_for > self.votes_against && self.votes_for >= self.minimum_threshold {
            ProposalStatus::Passed
        } else {
            ProposalStatus::Rejected
        }
    }
}

} // verus!
