//! The abstract state of the governance engine and the rules over it: the
//! ledgers' well-formedness, how a state may progress, and what each
//! operation decides.
use vstd::prelude::*;
use crate::config::{nanos_of_days, parameter_change, GovernanceConfig};
use crate::identity::UserId;
use crate::proposal::{
    resolved_status, total_weight, CreateProposalRequest, Proposal, ProposalStatus, ProposalType,
    Vote, VoteType,
};

verus! {

/// Voting power of an identity whose power was never set.
pub const DEFAULT_VOTING_POWER: u64 = 100;

/// Length of a listing when the caller names none.
pub const DEFAULT_QUERY_LIMIT: u32 = 10;

/// Longest listing a query returns.
pub const MAX_QUERY_LIMIT: u32 = 100;

/// The weight recorded by the ballots in `votes` for proposal `id` and choice `t`.
pub open spec fn tally(votes: Seq<Vote>, id: u64, t: VoteType) -> int
    decreases votes.len(),
{
    if votes.len() == 0 {
        0
    } else {
        let v = votes.last();
        tally(votes.drop_last(), id, t) + if v.proposal_id == id && v.vote_type == t {
            v.voting_power as int
        } else {
            0
        }
    }
}

/// The tally of a proposal for one choice.
pub open spec fn bucket(p: Proposal, t: VoteType) -> u64 {
    match t {
        VoteType::For => p.votes_for,
        VoteType::Against => p.votes_against,
        VoteType::Abstain => p.votes_abstain,
    }
}

/// `p` with `w` more weight for choice `t`.
pub open spec fn add_weight(p: Proposal, t: VoteType, w: u64) -> Proposal {
    match t {
        VoteType::For => Proposal { votes_for: (p.votes_for + w) as u64, ..p },
        VoteType::Against => Proposal { votes_against: (p.votes_against + w) as u64, ..p },
        VoteType::Abstain => Proposal { votes_abstain: (p.votes_abstain + w) as u64, ..p },
    }
}

/// The status changes that may happen to a proposal over any run of
/// operations: an active one closes, a passed one is executed.
pub open spec fn status_may_become(a: ProposalStatus, b: ProposalStatus) -> bool {
    ||| a == b
    ||| a == ProposalStatus::Active && b != ProposalStatus::Active
    ||| a == ProposalStatus::Passed && b == ProposalStatus::Executed
}

/// How one proposal may change: what was fixed at creation stays, the
/// status only moves forward, each tally only grows and only while the
/// proposal is active, and an execution time once set stays.
pub open spec fn proposal_progresses(a: Proposal, b: Proposal) -> bool {
    &&& b.id == a.id
    &&& b.proposer_id == a.proposer_id
    &&& b.title == a.title
    &&& b.description == a.description
    &&& b.proposal_type == a.proposal_type
    &&& b.created_at == a.created_at
    &&& b.voting_deadline == a.voting_deadline
    &&& b.minimum_threshold == a.minimum_threshold
    &&& status_may_become(a.status, b.status)
    &&& a.votes_for <= b.votes_for
    &&& a.votes_against <= b.votes_against
    &&& a.votes_abstain <= b.votes_abstain
    &&& total_weight(a) <= total_weight(b)
    &&& a.status != ProposalStatus::Active ==> {
        &&& b.votes_for == a.votes_for
        &&& b.votes_against == a.votes_against
        &&& b.votes_abstain == a.votes_abstain
    }
    &&& a.executed_at is Some ==> b.executed_at == a.executed_at
}

/// Each (proposal, voter) pair has at most one ballot.
pub open spec fn votes_unique(votes: Seq<Vote>) -> bool {
    forall|j: int, k: int|
        0 <= j < votes.len() && 0 <= k < votes.len()
            && #[trigger] votes[j].proposal_id == #[trigger] votes[k].proposal_id
            && votes[j].voter_id@ == votes[k].voter_id@ ==> j == k
}

/// Well-formedness: identifiers follow positions, ballots name existing
/// proposals and are unique per voter, every tally is the weight of the
/// ballots behind it, and exactly the executed proposals carry an
/// execution time.
pub open spec fn ledgers_wf(proposals: Seq<Proposal>, votes: Seq<Vote>) -> bool {
    &&& forall|i: int| 0 <= i < proposals.len() ==> #[trigger] proposals[i].id == i + 1
    &&& forall|j: int|
        0 <= j < votes.len() ==> 1 <= #[trigger] votes[j].proposal_id
            <= proposals.len()
    &&& votes_unique(votes)
    &&& forall|i: int|
        0 <= i < proposals.len() ==> {
            &&& #[trigger] proposals[i].votes_for == tally(votes, (i + 1) as u64, VoteType::For)
            &&& proposals[i].votes_against == tally(votes, (i + 1) as u64, VoteType::Against)
            &&& proposals[i].votes_abstain == tally(votes, (i + 1) as u64, VoteType::Abstain)
            &&& (proposals[i].status == ProposalStatus::Executed) == (proposals[i].executed_at is Some)
        }
}

/// Leaving the state as it is counts as progress.
pub proof fn lemma_progresses_refl(s: GovernanceState)
    ensures
        s.progresses(s),
{
    assert(s.votes.subrange(0, s.votes.len() as int) =~= s.votes);
}

/// A ballot list with no ballot for proposal `id` records no weight for it.
pub proof fn lemma_tally_absent(votes: Seq<Vote>, id: u64, t: VoteType)
    requires
        forall|j: int| 0 <= j < votes.len() ==> (#[trigger] votes[j]).proposal_id != id,
    ensures
        tally(votes, id, t) == 0,
    decreases votes.len(),
{
    if votes.len() > 0 {
        lemma_tally_absent(votes.drop_last(), id, t);
    }
}

/// Appending a ballot adds its weight to the one tally it belongs to.
pub proof fn lemma_tally_push(votes: Seq<Vote>, v: Vote, id: u64, t: VoteType)
    ensures
        tally(votes.push(v), id, t) == tally(votes, id, t) + if v.proposal_id == id
            && v.vote_type == t {
            v.voting_power as int
        } else {
            0
        },
{
    assert(votes.push(v).drop_last() =~= votes);
}

/// The proposal that `create_proposal` records.
pub open spec fn created_proposal(
    s: GovernanceState,
    creator: UserId,
    request: CreateProposalRequest,
    now: u64,
) -> Proposal {
    Proposal {
        id: (s.proposals.len() + 1) as u64,
        proposer_id: creator,
        title: request.title,
        description: request.description,
        proposal_type: request.proposal_type,
        status: ProposalStatus::Active,
        created_at: now,
        voting_deadline: (now + nanos_of_days(request.voting_duration_days)) as u64,
        votes_for: 0,
        votes_against: 0,
        votes_abstain: 0,
        minimum_threshold: s.config.minimum_voting_threshold,
        executed_at: None,
    }
}

/// `p` closed at the end of its voting period.
pub open spec fn closed_proposal(p: Proposal) -> Proposal {
    Proposal { status: resolved_status(p), ..p }
}

/// Whether a ballot of `voter` for `t` on proposal `id` at time `now` is
/// recorded: the proposal exists, is active, its deadline has not passed,
/// the voter has not voted on it, and the tally can hold the voter's power.
pub open spec fn vote_accepted(
    s: GovernanceState,
    id: u64,
    voter: Seq<char>,
    t: VoteType,
    now: u64,
) -> bool {
    &&& s.has_proposal(id)
    &&& s.proposal(id).status == ProposalStatus::Active
    &&& now <= s.proposal(id).voting_deadline
    &&& !s.has_voted(id, voter)
    &&& bucket(s.proposal(id), t) + s.power_of(voter) <= u64::MAX
}

/// A call to another part of the platform that executing a proposal needs;
/// its answer decides whether the execution succeeds.
#[derive(Debug)]
pub enum CollaboratorCall {
    /// Ask course management to approve and publish a course.
    ApproveCourse { course_id: String },
    /// Ask user management to make a user an instructor.
    VerifyInstructor { instructor_id: UserId },
}

/// The collaborator call that executing `p` needs, if any.
pub open spec fn needed_call(p: Proposal) -> Option<CollaboratorCall> {
    match p.proposal_type {
        ProposalType::CourseApproval { course_id } => Some(
            CollaboratorCall::ApproveCourse { course_id },
        ),
        ProposalType::InstructorVerification { instructor_id } => Some(
            CollaboratorCall::VerifyInstructor { instructor_id },
        ),
        _ => None,
    }
}

/// Whether proposal `id` may be executed at time `now`: it has passed and
/// the execution delay, counted from its deadline, is over.
pub open spec fn executable(s: GovernanceState, id: u64, now: u64) -> bool {
    &&& s.has_proposal(id)
    &&& s.proposal(id).status == ProposalStatus::Passed
    &&& now >= s.proposal(id).voting_deadline + nanos_of_days(s.config.execution_delay_days)
}

/// Whether executing `p` succeeds, given the collaborator's answer where
/// one is needed. Upgrades and tokenomics changes always succeed; a
/// parameter change succeeds when it applies.
pub open spec fn execution_succeeds(s: GovernanceState, p: Proposal, collaborator_ok: bool) -> bool {
    match p.proposal_type {
        ProposalType::CourseApproval { .. } => collaborator_ok,
        ProposalType::InstructorVerification { .. } => collaborator_ok,
        ProposalType::PlatformUpgrade { .. } => true,
        ProposalType::TokenomicsChange { .. } => true,
        ProposalType::GovernanceParameter { parameter, new_value } => parameter_change(
            s.config,
            parameter@,
            new_value@,
        ) is Some,
    }
}

/// The configuration after executing `p`.
pub open spec fn config_after_execution(s: GovernanceState, p: Proposal) -> GovernanceConfig {
    match p.proposal_type {
        ProposalType::GovernanceParameter { parameter, new_value } => match parameter_change(
            s.config,
            parameter@,
            new_value@,
        ) {
            Some(c) => c,
            None => s.config,
        },
        _ => s.config,
    }
}

/// `p` marked executed at time `now`.
pub open spec fn executed_proposal(p: Proposal, now: u64) -> Proposal {
    Proposal { status: ProposalStatus::Executed, executed_at: Some(now), ..p }
}

/// Listing order: `a` comes before `b` when it was created later, or at
/// the same time with a larger identifier.
pub open spec fn newer(a: Proposal, b: Proposal) -> bool {
    a.created_at > b.created_at || (a.created_at == b.created_at && a.id > b.id)
}

/// Whether `p` passes a listing's status filter.
pub open spec fn selected(p: Proposal, filter: Option<ProposalStatus>) -> bool {
    match filter {
        Some(st) => p.status == st,
        None => true,
    }
}

/// The length of a listing: the one asked for, else the default, at most the maximum.
pub open spec fn query_limit(limit: Option<u32>) -> nat {
    let l = match limit {
        Some(l) => l,
        None => DEFAULT_QUERY_LIMIT,
    };
    if l > MAX_QUERY_LIMIT {
        MAX_QUERY_LIMIT as nat
    } else {
        l as nat
    }
}

/// `r` lists, newest first, the `limit` newest proposals of `s` that pass
/// `filter`, or all of them when there are fewer.
pub open spec fn is_newest_first(
    s: GovernanceState,
    filter: Option<ProposalStatus>,
    limit: nat,
    r: Seq<Proposal>,
) -> bool {
    &&& r.len() <= limit
    &&& forall|k: int|
        0 <= k < r.len() ==> s.has_proposal((#[trigger] r[k]).id) && s.proposal(r[k].id) == r[k]
            && selected(r[k], filter)
    &&& forall|j: int, k: int| 0 <= j < k < r.len() ==> newer(#[trigger] r[j], #[trigger] r[k])
    &&& forall|i: int|
        0 <= i < s.proposals.len() && selected(#[trigger] s.proposals[i], filter) && !r.contains(
            s.proposals[i],
        ) ==> r.len() == limit && forall|k: int| 0 <= k < r.len() ==> newer(#[trigger] r[k], s.proposals[i])
}

/// The abstract state of the engine.
pub struct GovernanceState {
    /// Proposal `id` stands at index `id - 1`.
    pub proposals: Seq<Proposal>,
    /// Every ballot cast, in the order of casting.
    pub votes: Seq<Vote>,
    /// Voting power set for an identity, by its text.
    pub powers: Map<Seq<char>, u64>,
    pub config: GovernanceConfig,
}

impl GovernanceState {
    pub open spec fn has_proposal(self, id: u64) -> bool {
        1 <= id <= self.proposals.len()
    }

    pub open spec fn proposal(self, id: u64) -> Proposal {
        self.proposals[id - 1]
    }

    /// The voting power of an identity: the one set for it, else the default.
    pub open spec fn power_of(self, who: Seq<char>) -> u64 {
        if self.powers.contains_key(who) {
            self.powers[who]
        } else {
            DEFAULT_VOTING_POWER
        }
    }

    pub open spec fn has_voted(self, id: u64, voter: Seq<char>) -> bool {
        exists|j: int|
            0 <= j < self.votes.len() && #[trigger] self.votes[j].proposal_id == id
                && self.votes[j].voter_id@ == voter
    }

    /// Well-formedness of the two ledgers; see `ledgers_wf`.
    pub open spec fn wf(self) -> bool {
        ledgers_wf(self.proposals, self.votes)
    }

    /// How the state may change in one operation, and so over any run of
    /// them: proposals and ballots are only added, and each existing
    /// proposal progresses.
    pub open spec fn progresses(self, next: GovernanceState) -> bool {
        &&& self.proposals.len() <= next.proposals.len()
        &&& self.votes.len() <= next.votes.len()
        &&& next.votes.subrange(0, self.votes.len() as int) == self.votes
        &&& forall|i: int|
            0 <= i < self.proposals.len() ==> proposal_progresses(
                #[trigger] self.proposals[i],
                next.proposals[i],
            )
    }
}

} // verus!
