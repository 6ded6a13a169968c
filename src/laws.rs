//! Properties of the engine that hold over any run of operations.
use vstd::prelude::*;
use crate::model::{
    is_newest_first, ledgers_wf, newer, proposal_progresses, selected, status_may_become, tally,
    GovernanceState,
};
use crate::proposal::{total_weight, Proposal, ProposalStatus, VoteType};

verus! {

/// Progress composes: every operation ensures that the state progresses,
/// so the state after any sequence of operations has progressed from the
/// state before it.
pub proof fn lemma_progress_transitive(a: GovernanceState, b: GovernanceState, c: GovernanceState)
    requires
        a.progresses(b),
        b.progresses(c),
    ensures
        a.progresses(c),
{
    assert(c.votes.subrange(0, a.votes.len() as int) =~= b.votes.subrange(0, a.votes.len() as int));
    assert forall|i: int| 0 <= i < a.proposals.len() implies proposal_progresses(
        #[trigger] a.proposals[i],
        c.proposals[i],
    ) by {
        assert(proposal_progresses(a.proposals[i], b.proposals[i]));
        assert(proposal_progresses(b.proposals[i], c.proposals[i]));
    }
}

/// Over any run of operations, the total weight of votes on a proposal
/// never decreases, and it changes only if the proposal was active.
pub proof fn lemma_weight_grows_only_while_active(a: GovernanceState, b: GovernanceState, i: int)
    requires
        a.progresses(b),
        0 <= i < a.proposals.len(),
    ensures
        total_weight(b.proposals[i]) >= total_weight(a.proposals[i]),
        total_weight(b.proposals[i]) != total_weight(a.proposals[i]) ==> a.proposals[i].status
            == ProposalStatus::Active,
{
    assert(proposal_progresses(a.proposals[i], b.proposals[i]));
}

/// Once a proposal has left the Active status it never returns to it, so
/// every later vote on it is refused.
pub proof fn lemma_closed_stays_closed(a: GovernanceState, b: GovernanceState, id: u64)
    requires
        a.progresses(b),
        a.has_proposal(id),
        a.proposal(id).status != ProposalStatus::Active,
    ensures
        b.has_proposal(id),
        b.proposal(id).status != ProposalStatus::Active,
{
    assert(proposal_progresses(a.proposals[id - 1], b.proposals[id - 1]));
    assert(status_may_become(a.proposal(id).status, b.proposal(id).status));
}

/// A (proposal, voter) pair adds its weight at most once: in a
/// well-formed state, which every operation preserves, a voter has at most
/// one ballot on a proposal, and each tally of the proposal is exactly the
/// weight of the ballots recorded for it.
pub proof fn lemma_one_ballot_per_voter(s: GovernanceState, j: int, k: int)
    requires
        s.wf(),
        0 <= j < s.votes.len(),
        0 <= k < s.votes.len(),
        s.votes[j].proposal_id == s.votes[k].proposal_id,
        s.votes[j].voter_id@ == s.votes[k].voter_id@,
    ensures
        j == k,
        s.has_proposal(s.votes[j].proposal_id),
        s.proposal(s.votes[j].proposal_id).votes_for == tally(
            s.votes,
            s.votes[j].proposal_id,
            VoteType::For,
        ),
        s.proposal(s.votes[j].proposal_id).votes_against == tally(
            s.votes,
            s.votes[j].proposal_id,
            VoteType::Against,
        ),
        s.proposal(s.votes[j].proposal_id).votes_abstain == tally(
            s.votes,
            s.votes[j].proposal_id,
            VoteType::Abstain,
        ),
{
    assert(ledgers_wf(s.proposals, s.votes));
    let i = s.votes[j].proposal_id - 1;
    assert(s.proposals[i].votes_for == tally(s.votes, (i + 1) as u64, VoteType::For));
}

proof fn lemma_listing_entry_agrees(
    s: GovernanceState,
    filter: Option<ProposalStatus>,
    limit: nat,
    r1: Seq<Proposal>,
    r2: Seq<Proposal>,
    i: int,
)
    requires
        s.wf(),
        is_newest_first(s, filter, limit, r1),
        is_newest_first(s, filter, limit, r2),
        0 <= i < r1.len(),
        0 <= i < r2.len(),
        forall|m: int| 0 <= m < i ==> r1[m] == r2[m],
    ensures
        !newer(r1[i], r2[i]),
{
    if newer(r1[i], r2[i]) {
        let x = r1[i];
        let xi = x.id - 1;
        assert(s.proposals[xi] == x);
        assert(selected(s.proposals[xi], filter));
        if r2.contains(x) {
            let j = choose|j: int| 0 <= j < r2.len() && r2[j] == x;
            if j < i {
                assert(r1[j] == x);
                assert(newer(r1[j], r1[i]));
            } else if j > i {
                assert(newer(r2[i], r2[j]));
            }
        } else {
            assert(newer(r2[i], s.proposals[xi]));
        }
    }
}

proof fn lemma_listing_prefix_agrees(
    s: GovernanceState,
    filter: Option<ProposalStatus>,
    limit: nat,
    r1: Seq<Proposal>,
    r2: Seq<Proposal>,
    n: int,
)
    requires
        s.wf(),
        is_newest_first(s, filter, limit, r1),
        is_newest_first(s, filter, limit, r2),
        0 <= n <= r1.len(),
        n <= r2.len(),
    ensures
        forall|m: int| 0 <= m < n ==> r1[m] == r2[m],
    decreases n,
{
    if n > 0 {
        let i = n - 1;
        lemma_listing_prefix_agrees(s, filter, limit, r1, r2, i);
        if r1[i] != r2[i] {
            let a = r1[i];
            let b = r2[i];
            assert(s.proposals[a.id - 1] == a);
            assert(s.proposals[b.id - 1] == b);
            lemma_listing_entry_agrees(s, filter, limit, r1, r2, i);
            lemma_listing_entry_agrees(s, filter, limit, r2, r1, i);
        }
    }
}

proof fn lemma_listing_not_longer(
    s: GovernanceState,
    filter: Option<ProposalStatus>,
    limit: nat,
    r1: Seq<Proposal>,
    r2: Seq<Proposal>,
)
    requires
        s.wf(),
        is_newest_first(s, filter, limit, r1),
        is_newest_first(s, filter, limit, r2),
        forall|m: int| 0 <= m < r2.len() && m < r1.len() ==> r1[m] == r2[m],
    ensures
        r1.len() <= r2.len(),
{
    if r1.len() > r2.len() {
        let n = r2.len() as int;
        let x = r1[n];
        let xi = x.id - 1;
        assert(s.proposals[xi] == x);
        if r2.contains(x) {
            let j = choose|j: int| 0 <= j < r2.len() && r2[j] == x;
            assert(r1[j] == x);
            assert(newer(r1[j], r1[n]));
        } else {
            assert(selected(s.proposals[xi], filter));
        }
    }
}

/// A newest-first listing is determined by the state, the filter and the
/// limit: listing twice from the same state gives the same result.
pub proof fn lemma_listing_deterministic(
    s: GovernanceState,
    filter: Option<ProposalStatus>,
    limit: nat,
    r1: Seq<Proposal>,
    r2: Seq<Proposal>,
)
    requires
        s.wf(),
        is_newest_first(s, filter, limit, r1),
        is_newest_first(s, filter, limit, r2),
    ensures
        r1 == r2,
{
    let n = if r1.len() < r2.len() { r1.len() } else { r2.len() };
    lemma_listing_prefix_agrees(s, filter, limit, r1, r2, n as int);
    lemma_listing_not_longer(s, filter, limit, r1, r2);
    lemma_listing_not_longer(s, filter, limit, r2, r1);
    assert(r1 =~= r2);
}

} // verus!
