//! The governance engine: the proposal ledger, the vote ledger, the voting
//! power oracle and the configuration store, with the operations on them.
use vstd::prelude::*;
use crate::config::{
    default_config, execute_governance_parameter_change, nanos_of_days, GovernanceConfig,
    NANOS_PER_DAY,
};
use crate::error::ApiError;
use crate::identity::UserId;
use crate::model::{
    closed_proposal, created_proposal, config_after_execution, executable, executed_proposal,
    execution_succeeds, is_newest_first, ledgers_wf, lemma_progresses_refl, lemma_tally_absent,
    lemma_tally_push, needed_call, newer, proposal_progresses, query_limit, selected, tally,
    add_weight, bucket, vote_accepted, CollaboratorCall, GovernanceState, DEFAULT_QUERY_LIMIT,
    DEFAULT_VOTING_POWER, MAX_QUERY_LIMIT,
};
use crate::proposal::{
    CreateProposalRequest, GovernanceStats, Proposal, ProposalStatus, ProposalType, Vote, VoteType,
};
use crate::text::{is_blank, is_blank_text};

verus! {

/// A voting power set by an authorised caller.
struct PowerEntry {
    user: UserId,
    power: u64,
}

spec fn power_map(entries: Seq<PowerEntry>) -> Map<Seq<char>, u64> {
    Map::new(
        |k: Seq<char>| exists|i: int| 0 <= i < entries.len() && entries[i].user@ == k,
        |k: Seq<char>|
            entries[choose|i: int| 0 <= i < entries.len() && entries[i].user@ == k].power,
    )
}

/// The governance engine's state, owned by whoever runs the engine and
/// passed to each operation.
pub struct Governance {
    proposals: Vec<Proposal>,
    votes: Vec<Vote>,
    powers: Vec<PowerEntry>,
    config: GovernanceConfig,
}

impl View for Governance {
    type V = GovernanceState;

    closed spec fn view(&self) -> GovernanceState {
        GovernanceState {
            proposals: self.proposals@,
            votes: self.votes@,
            powers: power_map(self.powers@),
            config: self.config,
        }
    }
}

impl Governance {
    /// No identity has two power entries.
    pub closed spec fn powers_unique(&self) -> bool {
        forall|i: int, j: int|
            0 <= i < self.powers.len() && 0 <= j < self.powers.len()
                && #[trigger] self.powers@[i].user@ == #[trigger] self.powers@[j].user@ ==> i == j
    }

    /// Well-formed: the ledgers are, and no identity has two power entries.
    /// Every operation keeps it.
    pub open spec fn wf(&self) -> bool {
        &&& self@.wf()
        &&& self.powers_unique()
    }

    /// An engine with no proposals, no ballots, no power set, and the
    /// default configuration.
    pub fn new() -> (r: Governance)
        ensures
            r.wf(),
            r@.proposals.len() == 0,
            r@.votes.len() == 0,
            r@.powers == Map::<Seq<char>, u64>::empty(),
            r@.config == default_config(),
    {
        let r = Governance {
            proposals: Vec::new(),
            votes: Vec::new(),
            powers: Vec::new(),
            config: GovernanceConfig::default(),
        };
        assert(power_map(r.powers@) =~= Map::<Seq<char>, u64>::empty());
        r
    }

    /// The current configuration.
    pub fn get_config(&self) -> (r: GovernanceConfig)
        ensures
            r == self@.config,
    {
        self.config
    }

    /// The voting power of `user`: the one set for it, else the default.
    pub fn get_user_voting_power(&self, user: &UserId) -> (r: u64)
        requires
            self.wf(),
        ensures
            r == self@.power_of(user@),
    {
        let n = self.powers.len();
        let mut i: usize = 0;
        while i < n
            invariant
                self.wf(),
                n == self.powers.len(),
                i <= n,
                forall|j: int| 0 <= j < i ==> self.powers@[j].user@ != user@,
            decreases n - i,
        {
            if self.powers[i].user.same_as(user) {
                proof {
                    let k = choose|k: int| 0 <= k < self.powers.len() && self.powers@[k].user@ == user@;
                    assert(k == i as int);
                }
                return self.powers[i].power;
            }
            i += 1;
        }
        assert(!power_map(self.powers@).contains_key(user@));
        DEFAULT_VOTING_POWER
    }

    /// Sets the power of `user`, replacing any set before.
    fn set_power(&mut self, user: UserId, power: u64)
        requires
            old(self).wf(),
        ensures
            final(self).wf(),
            final(self)@ == (GovernanceState { powers: old(self)@.powers.insert(user@, power), ..old(self)@ }),
    {
        let n = self.powers.len();
        let mut i: usize = 0;
        while i < n
            invariant
                self.wf(),
                *self == *old(self),
                n == self.powers.len(),
                i <= n,
                forall|j: int| 0 <= j < i ==> self.powers@[j].user@ != user@,
            decreases n - i,
        {
            if self.powers[i].user.same_as(&user) {
                let ghost before = self.powers@;
                self.powers.set(i, PowerEntry { user, power });
                proof {
                    let after = self.powers@;
                    assert forall|a: int, b: int|
                        0 <= a < after.len() && 0 <= b < after.len()
                            && #[trigger] after[a].user@ == #[trigger] after[b].user@ implies a == b by {
                        assert(before[a].user@ == after[a].user@);
                        assert(before[b].user@ == after[b].user@);
                    }
                    assert forall|k: Seq<char>| #[trigger] power_map(after).contains_key(k)
                        == power_map(before).insert(user@, power).contains_key(k) by {
                        if k != user@ {
                            if power_map(before).contains_key(k) {
                                let a = choose|a: int| 0 <= a < before.len() && before[a].user@ == k;
                                assert(after[a].user@ == k);
                            }
                        } else {
                            assert(after[i as int].user@ == k);
                        }
                    }
                    assert forall|k: Seq<char>| #[trigger] power_map(after).contains_key(k)
                        implies power_map(after)[k] == power_map(before).insert(user@, power)[k] by {
                        let a = choose|a: int| 0 <= a < after.len() && after[a].user@ == k;
                        if k == user@ {
                            assert(after[i as int].user@ == k);
                            assert(a == i as int);
                        } else {
                            assert(before[a].user@ == k);
                            let b = choose|b: int| 0 <= b < before.len() && before[b].user@ == k;
                            assert(a == b);
                        }
                    }
                    assert(power_map(after) =~= power_map(before).insert(user@, power));
                }
                return;
            }
            i += 1;
        }
        let ghost before = self.powers@;
        self.powers.push(PowerEntry { user, power });
        proof {
            let after = self.powers@;
            assert(after[n as int].user@ == user@);
            assert forall|k: Seq<char>| #[trigger] power_map(after).contains_key(k)
                == power_map(before).insert(user@, power).contains_key(k) by {
                if power_map(before).contains_key(k) {
                    let a = choose|a: int| 0 <= a < before.len() && before[a].user@ == k;
                    assert(after[a].user@ == k);
                }
                if power_map(after).contains_key(k) && k != user@ {
                    let a = choose|a: int| 0 <= a < after.len() && after[a].user@ == k;
                    assert(before[a].user@ == k);
                }
            }
            assert forall|k: Seq<char>| #[trigger] power_map(after).contains_key(k)
                implies power_map(after)[k] == power_map(before).insert(user@, power)[k] by {
                let a = choose|a: int| 0 <= a < after.len() && after[a].user@ == k;
                if k == user@ {
                    assert(a == n as int);
                } else {
                    assert(before[a].user@ == k);
                    let b = choose|b: int| 0 <= b < before.len() && before[b].user@ == k;
                    assert(a == b);
                }
            }
            assert(power_map(after) =~= power_map(before).insert(user@, power));
        }
    }

    /// The proposal with identifier `id`.
    pub fn get_proposal(&self, id: u64) -> (r: Result<Proposal, ApiError>)
        requires
            self.wf(),
        ensures
            self@.has_proposal(id) ==> r == Ok::<Proposal, ApiError>(self@.proposal(id)),
            !self@.has_proposal(id) ==> r matches Err(ApiError::NotFound(_)),
    {
        if id >= 1 && id <= self.proposals.len() as u64 {
            Ok(self.proposals[(id - 1) as usize].clone())
        } else {
            Err(ApiError::NotFound(String::from_str("Proposal not found")))
        }
    }

    /// Index of the ballot of `voter` on proposal `id`, if there is one.
    fn find_vote(&self, id: u64, voter: &UserId) -> (r: Option<usize>)
        requires
            self.wf(),
        ensures
            r is None ==> !self@.has_voted(id, voter@),
            r matches Some(j) ==> j < self.votes.len() && self.votes@[j as int].proposal_id == id
                && self.votes@[j as int].voter_id@ == voter@,
    {
        let n = self.votes.len();
        let mut j: usize = 0;
        while j < n
            invariant
                n == self.votes.len(),
                j <= n,
                forall|k: int|
                    0 <= k < j ==> !(#[trigger] self.votes@[k].proposal_id == id
                        && self.votes@[k].voter_id@ == voter@),
            decreases n - j,
        {
            if self.votes[j].proposal_id == id && self.votes[j].voter_id.same_as(voter) {
                return Some(j);
            }
            j += 1;
        }
        None
    }

    /// The ballot of `user` on proposal `id`, if any.
    pub fn get_user_vote(&self, id: u64, user: &UserId) -> (r: Option<Vote>)
        requires
            self.wf(),
        ensures
            r is None <==> !self@.has_voted(id, user@),
            r matches Some(v) ==> self@.votes.contains(v) && v.proposal_id == id && v.voter_id@
                == user@,
    {
        match self.find_vote(id, user) {
            Some(j) => Some(self.votes[j].clone()),
            None => None,
        }
    }

    /// Opens a proposal on behalf of `creator` at time `now`.
    ///
    /// Refused, in this order: a blank title or description (`InvalidInput`);
    /// a creator whose power is below the creation threshold
    /// (`InsufficientPermissions`); a deadline past the end of the clock
    /// (`InvalidInput`); no identifier left (`InternalError`). Otherwise the
    /// proposal takes the next identifier, the threshold in force, zero
    /// tallies, and is recorded and returned.
    pub fn create_proposal(
        &mut self,
        creator: UserId,
        request: CreateProposalRequest,
        now: u64,
    ) -> (r: Result<Proposal, ApiError>)
        requires
            old(self).wf(),
        ensures
            final(self).wf(),
            old(self)@.progresses(final(self)@),
            r is Err ==> final(self)@ == old(self)@,
            is_blank_text(request.title@) ==> r matches Err(ApiError::InvalidInput(_)),
            !is_blank_text(request.title@) && is_blank_text(request.description@) ==> r matches Err(
                ApiError::InvalidInput(_),
            ),
            !is_blank_text(request.title@) && !is_blank_text(request.description@)
                && old(self)@.power_of(creator@) < old(self)@.config.minimum_proposal_threshold
                ==> r matches Err(ApiError::InsufficientPermissions),
            !is_blank_text(request.title@) && !is_blank_text(request.description@)
                && old(self)@.power_of(creator@) >= old(self)@.config.minimum_proposal_threshold
                && now + nanos_of_days(request.voting_duration_days) > u64::MAX ==> r matches Err(
                ApiError::InvalidInput(_),
            ),
            !is_blank_text(request.title@) && !is_blank_text(request.description@)
                && old(self)@.power_of(creator@) >= old(self)@.config.minimum_proposal_threshold
                && now + nanos_of_days(request.voting_duration_days) <= u64::MAX
                && old(self)@.proposals.len() >= u64::MAX ==> r matches Err(
                ApiError::InternalError(_),
            ),
            !is_blank_text(request.title@) && !is_blank_text(request.description@)
                && old(self)@.power_of(creator@) >= old(self)@.config.minimum_proposal_threshold
                && now + nanos_of_days(request.voting_duration_days) <= u64::MAX
                && old(self)@.proposals.len() < u64::MAX ==> {
                &&& r == Ok::<Proposal, ApiError>(created_proposal(old(self)@, creator, request, now))
                &&& final(self)@ == (GovernanceState {
                    proposals: old(self)@.proposals.push(created_proposal(old(self)@, creator, request, now)),
                    ..old(self)@
                })
            },
    {
        proof {
            lemma_progresses_refl(self@);
        }
        if is_blank(request.title.as_str()) {
            return Err(ApiError::InvalidInput(String::from_str("Proposal title cannot be empty")));
        }
        if is_blank(request.description.as_str()) {
            return Err(
                ApiError::InvalidInput(String::from_str("Proposal description cannot be empty")),
            );
        }
        let power = self.get_user_voting_power(&creator);
        if power < self.config.minimum_proposal_threshold {
            return Err(ApiError::InsufficientPermissions);
        }
        let deadline = match request.voting_duration_days.checked_mul(NANOS_PER_DAY) {
            Some(d) => match now.checked_add(d) {
                Some(t) => t,
                None => {
                    return Err(ApiError::InvalidInput(String::from_str("Voting duration is too long")));
                },
            },
            None => {
                return Err(ApiError::InvalidInput(String::from_str("Voting duration is too long")));
            },
        };
        let count = self.proposals.len() as u64;
        if count == u64::MAX {
            return Err(ApiError::InternalError(String::from_str("No proposal identifier is left")));
        }
        let proposal = Proposal {
            id: count + 1,
            proposer_id: creator,
            title: request.title,
            description: request.description,
            proposal_type: request.proposal_type,
            status: ProposalStatus::Active,
            created_at: now,
            voting_deadline: deadline,
            votes_for: 0,
            votes_against: 0,
            votes_abstain: 0,
            minimum_threshold: self.config.minimum_voting_threshold,
            executed_at: None,
        };
        let ghost before = self@;
        self.proposals.push(proposal.clone());
        proof {
            let id = proposal.id;
            assert forall|j: int| 0 <= j < before.votes.len() implies (#[trigger] before.votes[j]).proposal_id != id by {}
            lemma_tally_absent(before.votes, id, VoteType::For);
            lemma_tally_absent(before.votes, id, VoteType::Against);
            lemma_tally_absent(before.votes, id, VoteType::Abstain);
            assert(self@.proposals[before.proposals.len() as int] == proposal);
            let ps = self@.proposals;
            let vs = self@.votes;
            assert forall|i: int| 0 <= i < ps.len() implies {
                &&& (#[trigger] ps[i]).id == i + 1
                &&& ps[i].votes_for == tally(vs, (i + 1) as u64, VoteType::For)
                &&& ps[i].votes_against == tally(vs, (i + 1) as u64, VoteType::Against)
                &&& ps[i].votes_abstain == tally(vs, (i + 1) as u64, VoteType::Abstain)
                &&& (ps[i].status == ProposalStatus::Executed) == (ps[i].executed_at is Some)
            } by {
                if i < before.proposals.len() {
                    assert(ps[i] == before.proposals[i]);
                    assert(before.proposals[i].votes_for == tally(vs, (i + 1) as u64, VoteType::For));
                } else {
                    assert(ps[i].id == i + 1);
                    assert(ps[i].votes_for == tally(vs, (i + 1) as u64, VoteType::For));
                }
            }
            assert(ledgers_wf(ps, vs));
            assert(self@.votes.subrange(0, before.votes.len() as int) =~= before.votes);
        }
        Ok(proposal)
    }

    /// Records the ballot of `voter` for `vote_type` on proposal
    /// `proposal_id` at time `now`, weighted by the voter's current power.
    ///
    /// Refused, in this order: an unknown proposal (`NotFound`); a proposal
    /// that is not active (`InvalidInput`); a proposal whose deadline has
    /// passed (`InvalidInput`), which this call closes, passed or rejected
    /// by its tallies; a voter who already voted on it (`AlreadyExists`); a
    /// tally that cannot hold the weight (`InternalError`). Apart from the
    /// closing, a refusal changes nothing.
    pub fn vote_on_proposal(
        &mut self,
        proposal_id: u64,
        voter: UserId,
        vote_type: VoteType,
        now: u64,
    ) -> (r: Result<Vote, ApiError>)
        requires
            old(self).wf(),
        ensures
            final(self).wf(),
            old(self)@.progresses(final(self)@),
            !old(self)@.has_proposal(proposal_id) ==> r matches Err(ApiError::NotFound(_)),
            old(self)@.has_proposal(proposal_id) && old(self)@.proposal(proposal_id).status
                != ProposalStatus::Active ==> r matches Err(ApiError::InvalidInput(_)),
            old(self)@.has_proposal(proposal_id) && old(self)@.proposal(proposal_id).status
                == ProposalStatus::Active && now > old(self)@.proposal(proposal_id).voting_deadline
                ==> {
                &&& r matches Err(ApiError::InvalidInput(_))
                &&& final(self)@ == (GovernanceState {
                    proposals: old(self)@.proposals.update(
                        proposal_id - 1,
                        closed_proposal(old(self)@.proposal(proposal_id)),
                    ),
                    ..old(self)@
                })
            },
            old(self)@.has_proposal(proposal_id) && old(self)@.proposal(proposal_id).status
                == ProposalStatus::Active && now <= old(self)@.proposal(proposal_id).voting_deadline
                && old(self)@.has_voted(proposal_id, voter@) ==> r matches Err(
                ApiError::AlreadyExists(_),
            ),
            old(self)@.has_proposal(proposal_id) && old(self)@.proposal(proposal_id).status
                == ProposalStatus::Active && now <= old(self)@.proposal(proposal_id).voting_deadline
                && !old(self)@.has_voted(proposal_id, voter@) && bucket(
                old(self)@.proposal(proposal_id),
                vote_type,
            ) + old(self)@.power_of(voter@) > u64::MAX ==> r matches Err(
                ApiError::InternalError(_),
            ),
            r is Err && !(old(self)@.has_proposal(proposal_id) && old(self)@.proposal(
                proposal_id,
            ).status == ProposalStatus::Active && now > old(self)@.proposal(
                proposal_id,
            ).voting_deadline) ==> final(self)@ == old(self)@,
            vote_accepted(old(self)@, proposal_id, voter@, vote_type, now) ==> {
                let v = Vote {
                    proposal_id,
                    voter_id: voter,
                    vote_type,
                    voting_power: old(self)@.power_of(voter@),
                    timestamp: now,
                };
                &&& r == Ok::<Vote, ApiError>(v)
                &&& final(self)@ == (GovernanceState {
                    proposals: old(self)@.proposals.update(
                        proposal_id - 1,
                        add_weight(old(self)@.proposal(proposal_id), vote_type, v.voting_power),
                    ),
                    votes: old(self)@.votes.push(v),
                    ..old(self)@
                })
            },
    {
        proof {
            lemma_progresses_refl(self@);
        }
        if proposal_id == 0 || proposal_id > self.proposals.len() as u64 {
            return Err(ApiError::NotFound(String::from_str("Proposal not found")));
        }
        let idx = (proposal_id - 1) as usize;
        let mut proposal = self.proposals[idx].clone();
        if proposal.status != ProposalStatus::Active {
            return Err(ApiError::InvalidInput(String::from_str("Proposal is not active")));
        }
        let ghost before = self@;
        if now > proposal.voting_deadline {
            proposal.status = proposal.resolve_status();
            self.proposals.set(idx, proposal);
            proof {
                let ps = self@.proposals;
                assert forall|i: int| 0 <= i < ps.len() implies {
                    &&& (#[trigger] ps[i]).id == i + 1
                    &&& ps[i].votes_for == tally(self@.votes, (i + 1) as u64, VoteType::For)
                    &&& ps[i].votes_against == tally(self@.votes, (i + 1) as u64, VoteType::Against)
                    &&& ps[i].votes_abstain == tally(self@.votes, (i + 1) as u64, VoteType::Abstain)
                    &&& (ps[i].status == ProposalStatus::Executed) == (ps[i].executed_at is Some)
                } by {
                    assert(before.proposals[i].votes_for == tally(before.votes, (i + 1) as u64, VoteType::For));
                }
                assert(self@.votes.subrange(0, before.votes.len() as int) =~= before.votes);
                assert forall|i: int| 0 <= i < before.proposals.len() implies proposal_progresses(
                    #[trigger] before.proposals[i],
                    self@.proposals[i],
                ) by {}
            }
            return Err(ApiError::InvalidInput(String::from_str("Voting period has ended")));
        }
        if self.find_vote(proposal_id, &voter).is_some() {
            return Err(
                ApiError::AlreadyExists(String::from_str("User has already voted on this proposal")),
            );
        }
        let voting_power = self.get_user_voting_power(&voter);
        match vote_type {
            VoteType::For => match proposal.votes_for.checked_add(voting_power) {
                Some(w) => proposal.votes_for = w,
                None => {
                    return Err(ApiError::InternalError(String::from_str("Vote tally overflow")));
                },
            },
            VoteType::Against => match proposal.votes_against.checked_add(voting_power) {
                Some(w) => proposal.votes_against = w,
                None => {
                    return Err(ApiError::InternalError(String::from_str("Vote tally overflow")));
                },
            },
            VoteType::Abstain => match proposal.votes_abstain.checked_add(voting_power) {
                Some(w) => proposal.votes_abstain = w,
                None => {
                    return Err(ApiError::InternalError(String::from_str("Vote tally overflow")));
                },
            },
        }
        let vote = Vote {
            proposal_id,
            voter_id: voter,
            vote_type,
            voting_power,
            timestamp: now,
        };
        self.proposals.set(idx, proposal);
        self.votes.push(vote.clone());
        proof {
            let ps = self@.proposals;
            let vs = self@.votes;
            assert(vs =~= before.votes.push(vote));
            assert forall|i: int| 0 <= i < ps.len() implies {
                &&& (#[trigger] ps[i]).id == i + 1
                &&& ps[i].votes_for == tally(vs, (i + 1) as u64, VoteType::For)
                &&& ps[i].votes_against == tally(vs, (i + 1) as u64, VoteType::Against)
                &&& ps[i].votes_abstain == tally(vs, (i + 1) as u64, VoteType::Abstain)
                &&& (ps[i].status == ProposalStatus::Executed) == (ps[i].executed_at is Some)
            } by {
                lemma_tally_push(before.votes, vote, (i + 1) as u64, VoteType::For);
                lemma_tally_push(before.votes, vote, (i + 1) as u64, VoteType::Against);
                lemma_tally_push(before.votes, vote, (i + 1) as u64, VoteType::Abstain);
                assert(before.proposals[i].votes_for == tally(before.votes, (i + 1) as u64, VoteType::For));
            }
            assert forall|j: int, k: int|
                0 <= j < vs.len() && 0 <= k < vs.len()
                    && #[trigger] vs[j].proposal_id == #[trigger] vs[k].proposal_id
                    && vs[j].voter_id@ == vs[k].voter_id@ implies j == k by {
                if j < before.votes.len() && k < before.votes.len() {
                    assert(vs[j] == before.votes[j]);
                    assert(vs[k] == before.votes[k]);
                } else if j < before.votes.len() {
                    assert(vs[j] == before.votes[j]);
                    assert(before.votes[j].proposal_id == proposal_id);
                } else if k < before.votes.len() {
                    assert(vs[k] == before.votes[k]);
                    assert(before.votes[k].proposal_id == proposal_id);
                }
            }
            assert(ledgers_wf(ps, vs));
            assert(vs.subrange(0, before.votes.len() as int) =~= before.votes);
            assert forall|i: int| 0 <= i < before.proposals.len() implies proposal_progresses(
                #[trigger] before.proposals[i],
                ps[i],
            ) by {}
        }
        Ok(vote)
    }

    /// Checks that proposal `id` may be executed at time `now`, with the
    /// same refusals as `execute_proposal`.
    fn check_executable(&self, id: u64, now: u64) -> (r: Result<usize, ApiError>)
        requires
            self.wf(),
        ensures
            !self@.has_proposal(id) ==> r matches Err(ApiError::NotFound(_)),
            self@.has_proposal(id) && !executable(self@, id, now) ==> r matches Err(
                ApiError::InvalidInput(_),
            ),
            executable(self@, id, now) <==> r is Ok,
            r matches Ok(i) ==> i == id - 1,
    {
        if id == 0 || id > self.proposals.len() as u64 {
            return Err(ApiError::NotFound(String::from_str("Proposal not found")));
        }
        let idx = (id - 1) as usize;
        if self.proposals[idx].status != ProposalStatus::Passed {
            return Err(ApiError::InvalidInput(String::from_str("Proposal has not passed")));
        }
        let deadline = self.proposals[idx].voting_deadline;
        let delay_over = now >= deadline && match self.config.execution_delay_days.checked_mul(
            NANOS_PER_DAY,
        ) {
            Some(delay) => now - deadline >= delay,
            None => false,
        };
        if !delay_over {
            return Err(
                ApiError::InvalidInput(String::from_str("Execution delay period has not passed")),
            );
        }
        Ok(idx)
    }

    /// The collaborator call that executing proposal `id` at time `now`
    /// needs first, if any; refused as `execute_proposal` would refuse.
    /// The caller makes the call and hands its answer to `execute_proposal`.
    pub fn collaborator_call(&self, id: u64, now: u64) -> (r: Result<Option<CollaboratorCall>, ApiError>)
        requires
            self.wf(),
        ensures
            !self@.has_proposal(id) ==> r matches Err(ApiError::NotFound(_)),
            self@.has_proposal(id) && !executable(self@, id, now) ==> r matches Err(
                ApiError::InvalidInput(_),
            ),
            executable(self@, id, now) ==> r == Ok::<Option<CollaboratorCall>, ApiError>(
                needed_call(self@.proposal(id)),
            ),
    {
        let idx = match self.check_executable(id, now) {
            Ok(i) => i,
            Err(e) => return Err(e),
        };
        match &self.proposals[idx].proposal_type {
            ProposalType::CourseApproval { course_id } => Ok(
                Some(CollaboratorCall::ApproveCourse { course_id: course_id.clone() }),
            ),
            ProposalType::InstructorVerification { instructor_id } => Ok(
                Some(CollaboratorCall::VerifyInstructor { instructor_id: instructor_id.clone() }),
            ),
            _ => Ok(None),
        }
    }

    /// Executes proposal `proposal_id` at time `now`. `collaborator_ok` is
    /// the answer of the collaborator call that the proposal needs, and is
    /// ignored for proposals that need none.
    ///
    /// Refused: an unknown proposal (`NotFound`); one that has not passed,
    /// or whose execution delay after the deadline is not over
    /// (`InvalidInput`); a refusal changes nothing. Otherwise returns whether
    /// the execution succeeded; on success the proposal is marked executed
    /// at `now`, and on failure it stays passed. A parameter change that
    /// applies updates the configuration.
    pub fn execute_proposal(&mut self, proposal_id: u64, now: u64, collaborator_ok: bool) -> (r:
        Result<bool, ApiError>)
        requires
            old(self).wf(),
        ensures
            final(self).wf(),
            old(self)@.progresses(final(self)@),
            !old(self)@.has_proposal(proposal_id) ==> r matches Err(ApiError::NotFound(_)),
            old(self)@.has_proposal(proposal_id) && !executable(old(self)@, proposal_id, now)
                ==> r matches Err(ApiError::InvalidInput(_)),
            r is Err ==> final(self)@ == old(self)@,
            old(self)@.has_proposal(proposal_id) && now < old(self)@.proposal(
                proposal_id,
            ).voting_deadline + nanos_of_days(old(self)@.config.execution_delay_days) ==> r is Err,
            executable(old(self)@, proposal_id, now) ==> {
                let p = old(self)@.proposal(proposal_id);
                let ok = execution_succeeds(old(self)@, p, collaborator_ok);
                &&& r == Ok::<bool, ApiError>(ok)
                &&& final(self)@ == (GovernanceState {
                    proposals: if ok {
                        old(self)@.proposals.update(proposal_id - 1, executed_proposal(p, now))
                    } else {
                        old(self)@.proposals
                    },
                    config: config_after_execution(old(self)@, p),
                    ..old(self)@
                })
            },
    {
        proof {
            lemma_progresses_refl(self@);
        }
        let idx = match self.check_executable(proposal_id, now) {
            Ok(i) => i,
            Err(e) => return Err(e),
        };
        let ghost before = self@;
        let mut proposal = self.proposals[idx].clone();
        let success = match &proposal.proposal_type {
            ProposalType::CourseApproval { .. } => collaborator_ok,
            ProposalType::InstructorVerification { .. } => collaborator_ok,
            ProposalType::PlatformUpgrade { .. } => true,
            ProposalType::TokenomicsChange { .. } => true,
            ProposalType::GovernanceParameter { parameter, new_value } => {
                execute_governance_parameter_change(&mut self.config, parameter, new_value)
            },
        };
        if success {
            proposal.status = ProposalStatus::Executed;
            proposal.executed_at = Some(now);
            self.proposals.set(idx, proposal);
        }
        proof {
            let ps = self@.proposals;
            assert forall|i: int| 0 <= i < ps.len() implies {
                &&& (#[trigger] ps[i]).id == i + 1
                &&& ps[i].votes_for == tally(self@.votes, (i + 1) as u64, VoteType::For)
                &&& ps[i].votes_against == tally(self@.votes, (i + 1) as u64, VoteType::Against)
                &&& ps[i].votes_abstain == tally(self@.votes, (i + 1) as u64, VoteType::Abstain)
                &&& (ps[i].status == ProposalStatus::Executed) == (ps[i].executed_at is Some)
            } by {
                assert(before.proposals[i].votes_for == tally(before.votes, (i + 1) as u64, VoteType::For));
            }
            assert(ledgers_wf(ps, self@.votes));
            assert forall|i: int| 0 <= i < before.proposals.len() implies proposal_progresses(
                #[trigger] before.proposals[i],
                ps[i],
            ) by {}
        }
        Ok(success)
    }

    /// Sets the voting power of `user`. `caller_is_admin` is the answer of
    /// the platform's admin check for the caller; a caller who is not an
    /// admin is refused (`InsufficientPermissions`) and nothing changes.
    pub fn update_user_voting_power(&mut self, caller_is_admin: bool, user: UserId, new_power: u64) -> (r:
        Result<bool, ApiError>)
        requires
            old(self).wf(),
        ensures
            final(self).wf(),
            old(self)@.progresses(final(self)@),
            !caller_is_admin ==> (r matches Err(ApiError::InsufficientPermissions)),
            !caller_is_admin ==> final(self)@ == old(self)@,
            caller_is_admin ==> r == Ok::<bool, ApiError>(true) && final(self)@ == (GovernanceState {
                powers: old(self)@.powers.insert(user@, new_power),
                ..old(self)@
            }),
    {
        proof {
            lemma_progresses_refl(self@);
        }
        if !caller_is_admin {
            return Err(ApiError::InsufficientPermissions);
        }
        self.set_power(user, new_power);
        Ok(true)
    }

    /// Replaces the whole configuration. `caller_is_admin` is the answer of
    /// the platform's admin check for the caller; a caller who is not an
    /// admin is refused (`InsufficientPermissions`) and nothing changes.
    pub fn update_governance_config(&mut self, caller_is_admin: bool, new_config: GovernanceConfig) -> (r:
        Result<bool, ApiError>)
        requires
            old(self).wf(),
        ensures
            final(self).wf(),
            old(self)@.progresses(final(self)@),
            !caller_is_admin ==> (r matches Err(ApiError::InsufficientPermissions)),
            !caller_is_admin ==> final(self)@ == old(self)@,
            caller_is_admin ==> r == Ok::<bool, ApiError>(true) && final(self)@ == (GovernanceState {
                config: new_config,
                ..old(self)@
            }),
    {
        proof {
            lemma_progresses_refl(self@);
        }
        if !caller_is_admin {
            return Err(ApiError::InsufficientPermissions);
        }
        self.config = new_config;
        Ok(true)
    }

    /// The proposals created by `user`, by identifier.
    pub fn get_user_proposals(&self, user: &UserId) -> (r: Vec<Proposal>)
        requires
            self.wf(),
        ensures
            r@ == self@.proposals.filter(|p: Proposal| p.proposer_id@ == user@),
    {
        let mut out: Vec<Proposal> = Vec::new();
        let n = self.proposals.len();
        let mut i: usize = 0;
        while i < n
            invariant
                n == self.proposals.len(),
                i <= n,
                out@ == self@.proposals.subrange(0, i as int).filter(
                    |p: Proposal| p.proposer_id@ == user@,
                ),
            decreases n - i,
        {
            proof {
                let f = |p: Proposal| p.proposer_id@ == user@;
                assert(self@.proposals.subrange(0, i + 1) =~= self@.proposals.subrange(0, i as int).push(
                    self@.proposals[i as int],
                ));
                self@.proposals.subrange(0, i as int).lemma_filter_push(self@.proposals[i as int], f);
            }
            if self.proposals[i].proposer_id.same_as(user) {
                out.push(self.proposals[i].clone());
            }
            i += 1;
        }
        assert(self@.proposals.subrange(0, n as int) =~= self@.proposals);
        out
    }

    /// The ballots cast on proposal `id`, in the order they were cast.
    pub fn get_proposal_votes(&self, id: u64) -> (r: Vec<Vote>)
        requires
            self.wf(),
        ensures
            r@ == self@.votes.filter(|v: Vote| v.proposal_id == id),
    {
        let mut out: Vec<Vote> = Vec::new();
        let n = self.votes.len();
        let mut j: usize = 0;
        while j < n
            invariant
                n == self.votes.len(),
                j <= n,
                out@ == self@.votes.subrange(0, j as int).filter(|v: Vote| v.proposal_id == id),
            decreases n - j,
        {
            proof {
                let f = |v: Vote| v.proposal_id == id;
                assert(self@.votes.subrange(0, j + 1) =~= self@.votes.subrange(0, j as int).push(
                    self@.votes[j as int],
                ));
                self@.votes.subrange(0, j as int).lemma_filter_push(self@.votes[j as int], f);
            }
            if self.votes[j].proposal_id == id {
                out.push(self.votes[j].clone());
            }
            j += 1;
        }
        assert(self@.votes.subrange(0, n as int) =~= self@.votes);
        out
    }

    /// Counts of proposals, of active and of executed ones, and of ballots,
    /// with the configuration in force.
    pub fn get_governance_stats(&self) -> (r: GovernanceStats)
        requires
            self.wf(),
        ensures
            r.total_proposals == self@.proposals.len(),
            r.active_proposals == self@.proposals.filter(
                |p: Proposal| p.status == ProposalStatus::Active,
            ).len(),
            r.executed_proposals == self@.proposals.filter(
                |p: Proposal| p.status == ProposalStatus::Executed,
            ).len(),
            r.total_votes == self@.votes.len(),
            r.governance_config == self@.config,
    {
        let n = self.proposals.len();
        let mut active: u64 = 0;
        let mut executed: u64 = 0;
        let mut i: usize = 0;
        while i < n
            invariant
                n == self.proposals.len(),
                i <= n,
                active == self@.proposals.subrange(0, i as int).filter(
                    |p: Proposal| p.status == ProposalStatus::Active,
                ).len(),
                executed == self@.proposals.subrange(0, i as int).filter(
                    |p: Proposal| p.status == ProposalStatus::Executed,
                ).len(),
            decreases n - i,
        {
            proof {
                let fa = |p: Proposal| p.status == ProposalStatus::Active;
                let fe = |p: Proposal| p.status == ProposalStatus::Executed;
                let pre = self@.proposals.subrange(0, i as int);
                assert(self@.proposals.subrange(0, i + 1) =~= pre.push(self@.proposals[i as int]));
                pre.lemma_filter_push(self@.proposals[i as int], fa);
                pre.lemma_filter_push(self@.proposals[i as int], fe);
                pre.lemma_filter_len(fa);
                pre.lemma_filter_len(fe);
            }
            match self.proposals[i].status {
                ProposalStatus::Active => active += 1,
                ProposalStatus::Executed => executed += 1,
                _ => {},
            }
            i += 1;
        }
        assert(self@.proposals.subrange(0, n as int) =~= self@.proposals);
        GovernanceStats {
            total_proposals: n as u64,
            active_proposals: active,
            executed_proposals: executed,
            total_votes: self.votes.len() as u64,
            governance_config: self.config,
        }
    }

    /// The newest `limit` proposals that pass `filter`, newest first.
    fn newest_first(&self, filter: Option<ProposalStatus>, limit: usize) -> (r: Vec<Proposal>)
        requires
            self.wf(),
        ensures
            is_newest_first(self@, filter, limit as nat, r@),
    {
        let ghost s = self@;
        let n = self.proposals.len();
        let mut out: Vec<Proposal> = Vec::new();
        while out.len() < limit
            invariant
                s == self@,
                s.wf(),
                n == s.proposals.len(),
                out.len() <= limit,
                forall|k: int|
                    0 <= k < out.len() ==> s.has_proposal((#[trigger] out@[k]).id) && s.proposal(
                        out@[k].id,
                    ) == out@[k] && selected(out@[k], filter),
                forall|j: int, k: int|
                    0 <= j < k < out.len() ==> newer(#[trigger] out@[j], #[trigger] out@[k]),
                forall|i: int|
                    0 <= i < n && selected(#[trigger] s.proposals[i], filter) && !out@.contains(
                        s.proposals[i],
                    ) ==> forall|k: int| 0 <= k < out.len() ==> newer(#[trigger] out@[k], s.proposals[i]),
            ensures
                is_newest_first(s, filter, limit as nat, out@),
            decreases limit - out.len(),
        {
            let ghost last_index = out.len() - 1;
            let mut best: Option<usize> = None;
            let mut i: usize = 0;
            while i < n
                invariant
                    s == self@,
                    s.wf(),
                    n == s.proposals.len(),
                    i <= n,
                    last_index == out.len() - 1,
                    best matches Some(b) ==> {
                        &&& b < i
                        &&& selected(s.proposals[b as int], filter)
                        &&& out.len() > 0 ==> newer(out@[last_index], s.proposals[b as int])
                        &&& forall|m: int|
                            0 <= m < i && selected(#[trigger] s.proposals[m], filter) && (out.len()
                                > 0 ==> newer(out@[last_index], s.proposals[m])) ==> m == b
                                || newer(s.proposals[b as int], s.proposals[m])
                    },
                    best is None ==> forall|m: int|
                        0 <= m < i && selected(#[trigger] s.proposals[m], filter) ==> out.len() > 0
                            && !newer(out@[last_index], s.proposals[m]),
                decreases n - i,
            {
                let p = &self.proposals[i];
                let passes = match filter {
                    Some(st) => p.status == st,
                    None => true,
                };
                let below = out.len() == 0 || is_newer(&out[out.len() - 1], p);
                if passes && below {
                    match best {
                        None => best = Some(i),
                        Some(b) => if is_newer(p, &self.proposals[b]) {
                            best = Some(i);
                        },
                    }
                }
                i += 1;
            }
            match best {
                None => {
                    proof {
                        assert forall|i: int|
                            0 <= i < n && selected(#[trigger] s.proposals[i], filter)
                                implies out@.contains(s.proposals[i]) by {
                            if !out@.contains(s.proposals[i]) {
                                assert(newer(out@[last_index], s.proposals[i]));
                            }
                        }
                    }
                    break;
                },
                Some(b) => {
                    let ghost old_out = out@;
                    out.push(self.proposals[b].clone());
                    proof {
                        assert(s.proposals[b as int].id == b + 1);
                        assert forall|j: int, k: int| 0 <= j < k < out.len() implies newer(
                            #[trigger] out@[j],
                            #[trigger] out@[k],
                        ) by {
                            if k == old_out.len() && j < last_index {
                                assert(newer(old_out[j], old_out[last_index]));
                            }
                        }
                        assert forall|i: int|
                            0 <= i < n && selected(#[trigger] s.proposals[i], filter)
                                && !out@.contains(s.proposals[i]) implies forall|k: int|
                            0 <= k < out.len() ==> newer(#[trigger] out@[k], s.proposals[i]) by {
                            assert(!old_out.contains(s.proposals[i])) by {
                                if old_out.contains(s.proposals[i]) {
                                    let k = choose|k: int| 0 <= k < old_out.len() && old_out[k] == s.proposals[i];
                                    assert(out@[k] == s.proposals[i]);
                                }
                            }
                            assert(out@[old_out.len() as int] == s.proposals[b as int]);
                            if old_out.len() > 0 {
                                assert(newer(old_out[last_index], s.proposals[i]));
                            }
                            assert(i != b);
                            assert forall|k: int| 0 <= k < out.len() implies newer(
                                #[trigger] out@[k],
                                s.proposals[i],
                            ) by {
                                if k < old_out.len() {
                                    assert(out@[k] == old_out[k]);
                                }
                            }
                        }
                    }
                },
            }
        }
        out
    }

    /// The active proposals, newest first, at most `limit` of them (ten
    /// when none is given, never more than a hundred).
    pub fn get_active_proposals(&self, limit: Option<u32>) -> (r: Vec<Proposal>)
        requires
            self.wf(),
        ensures
            is_newest_first(self@, Some(ProposalStatus::Active), query_limit(limit), r@),
    {
        self.newest_first(Some(ProposalStatus::Active), effective_limit(limit))
    }

    /// The proposals with status `status`, or all of them when none is
    /// given, newest first, at most `limit` of them (ten when none is given,
    /// never more than a hundred).
    pub fn get_proposal_history(&self, status: Option<ProposalStatus>, limit: Option<u32>) -> (r:
        Vec<Proposal>)
        requires
            self.wf(),
        ensures
            is_newest_first(self@, status, query_limit(limit), r@),
    {
        self.newest_first(status, effective_limit(limit))
    }
}

/// Whether `a` is listed before `b`.
fn is_newer(a: &Proposal, b: &Proposal) -> (r: bool)
    ensures
        r == newer(*a, *b),
{
    a.created_at > b.created_at || (a.created_at == b.created_at && a.id > b.id)
}

/// The length of a listing for the limit a caller gave.
fn effective_limit(limit: Option<u32>) -> (r: usize)
    ensures
        r == query_limit(limit),
{
    let l = match limit {
        Some(l) => l,
        None => DEFAULT_QUERY_LIMIT,
    };
    if l > MAX_QUERY_LIMIT {
        MAX_QUERY_LIMIT as usize
    } else {
        l as usize
    }
}

} // verus!
