use vstd::prelude::*;
use vstd::string::*;
use crate::error::ErrorCode;
use crate::state::{
    same_key, Config, Market, MarketStatus, Proposal, ProposalStatus, Pubkey, VoteRecord, VOTING_PERIOD,
};

verus! {

/// Longest evidence text, in characters.
pub const MAX_EVIDENCE_LEN: usize = 500;

/// Reported when an outcome is proposed.
#[derive(Clone, Debug)]
pub struct ResolutionProposed {
    pub market: Pubkey,
    pub proposal: Pubkey,
    pub proposer: Pubkey,
    pub outcome: bool,
    pub evidence: String,
    pub voting_ends_at: i64,
}

/// Reported when a vote is cast.
#[derive(Clone, Copy, Debug)]
pub struct VoteCast {
    pub proposal: Pubkey,
    pub voter: Pubkey,
    pub weight: u64,
    pub support: bool,
    pub votes_for: u64,
    pub votes_against: u64,
}

/// Reported when a proposal is executed and its market resolved.
#[derive(Clone, Copy, Debug)]
pub struct MarketResolved {
    pub market: Pubkey,
    pub proposal: Pubkey,
    pub outcome: bool,
    pub total_votes: u64,
    pub proposer_correct: bool,
}

/// The first check that a proposal fails, if any.
pub open spec fn propose_error(market: Market, evidence: Seq<char>, now: i64) -> Option<ErrorCode> {
    if evidence.len() > MAX_EVIDENCE_LEN {
        Some(ErrorCode::EvidenceTooLong)
    } else if market.status != MarketStatus::Active {
        Some(ErrorCode::MarketNotActive)
    } else if now <= market.end_time {
        Some(ErrorCode::MarketNotEnded)
    } else if now + VOTING_PERIOD > i64::MAX {
        Some(ErrorCode::MathOverflow)
    } else {
        None
    }
}

/// Proposes `outcome` for an active market whose trading has closed, opening
/// a vote of `VOTING_PERIOD` seconds with empty tallies.
///
/// On success the caller moves the configured `proposal_stake` of
/// governance tokens from the proposer into the proposal's escrow.
pub fn propose_resolution(
    market: &Market,
    market_key: Pubkey,
    proposal_key: Pubkey,
    proposer: Pubkey,
    bump: u8,
    outcome: bool,
    evidence: String,
    now: i64,
) -> (r: Result<(Proposal, ResolutionProposed), ErrorCode>)
    ensures
        match r {
            Err(e) => propose_error(*market, evidence@, now) == Some(e),
            Ok((p, ev)) => {
                &&& propose_error(*market, evidence@, now) is None
                &&& p.wf()
                &&& p.market == market_key
                &&& p.proposer == proposer
                &&& p.outcome == outcome
                &&& p.evidence@ == evidence@
                &&& p.proposed_at == now
                &&& p.voting_ends_at == now + VOTING_PERIOD
                &&& p.votes_for == 0
                &&& p.votes_against == 0
                &&& p.status == ProposalStatus::Active
                &&& p.bump == bump
                &&& ev.market == market_key
                &&& ev.proposal == proposal_key
                &&& ev.proposer == proposer
                &&& ev.outcome == outcome
                &&& ev.evidence@ == evidence@
                &&& ev.voting_ends_at == p.voting_ends_at
            },
        },
{
    if evidence.as_str().unicode_len() > MAX_EVIDENCE_LEN {
        return Err(ErrorCode::EvidenceTooLong);
    }
    if market.status != MarketStatus::Active {
        return Err(ErrorCode::MarketNotActive);
    }
    if now <= market.end_time {
        return Err(ErrorCode::MarketNotEnded);
    }
    let voting_ends_at: i64 = match now.checked_add(VOTING_PERIOD) {
        Some(t) => t,
        None => return Err(ErrorCode::MathOverflow),
    };
    let event = ResolutionProposed {
        market: market_key,
        proposal: proposal_key,
        proposer,
        outcome,
        evidence: evidence.clone(),
        voting_ends_at,
    };
    let proposal = Proposal {
        market: market_key,
        proposer,
        outcome,
        evidence,
        proposed_at: now,
        voting_ends_at,
        votes_for: 0,
        votes_against: 0,
        status: ProposalStatus::Active,
        bump,
    };
    Ok((proposal, event))
}

/// Whether `voter` already has a vote recorded on the proposal `proposal_key`.
pub open spec fn has_voted(votes: Seq<VoteRecord>, proposal_key: Pubkey, voter: Pubkey) -> bool {
    exists|i: int| 0 <= i < votes.len() && votes[i].proposal@ == proposal_key@ && votes[i].voter@ == voter@
}

/// Searches `votes` for a vote of `voter` on the proposal `proposal_key`.
pub fn find_vote(votes: &Vec<VoteRecord>, proposal_key: &Pubkey, voter: &Pubkey) -> (r: bool)
    ensures
        r == has_voted(votes@, *proposal_key, *voter),
{
    let mut i: usize = 0;
    while i < votes.len()
        invariant
            0 <= i <= votes@.len(),
            forall|j: int| 0 <= j < i ==> !(votes@[j].proposal@ == proposal_key@ && votes@[j].voter@ == voter@),
        decreases votes@.len() - i,
    {
        if same_key(&votes[i].proposal, proposal_key) && same_key(&votes[i].voter, voter) {
            return true;
        }
        i = i + 1;
    }
    false
}

/// The first check that a vote fails, if any.
pub open spec fn vote_error(
    p: Proposal,
    votes: Seq<VoteRecord>,
    proposal_key: Pubkey,
    voter: Pubkey,
    weight: u64,
    support: bool,
    now: i64,
) -> Option<ErrorCode> {
    if p.status != ProposalStatus::Active {
        Some(ErrorCode::ProposalNotActive)
    } else if now >= p.voting_ends_at {
        Some(ErrorCode::VotingEnded)
    } else if has_voted(votes, proposal_key, voter) {
        Some(ErrorCode::AlreadyVoted)
    } else if support && p.votes_for + weight > u64::MAX {
        Some(ErrorCode::MathOverflow)
    } else if !support && p.votes_against + weight > u64::MAX {
        Some(ErrorCode::MathOverflow)
    } else {
        None
    }
}

/// The proposal once a vote of `weight` is added to the side it supports.
pub open spec fn proposal_after_vote(p: Proposal, weight: u64, support: bool) -> Proposal {
    if support {
        Proposal { votes_for: (p.votes_for + weight) as u64, ..p }
    } else {
        Proposal { votes_against: (p.votes_against + weight) as u64, ..p }
    }
}

/// Casts `voter`'s vote of `weight` for (`support`) or against the proposal,
/// while it is active and its voting window is open. A voter votes at most
/// once per proposal: the record of the vote is appended to `votes`, and a
/// second attempt fails with `AlreadyVoted`.
///
/// On success the caller moves `weight` governance tokens from the voter
/// into the proposal's vote escrow. On failure nothing changes.
pub fn vote_on_resolution(
    proposal: &mut Proposal,
    votes: &mut Vec<VoteRecord>,
    proposal_key: Pubkey,
    voter: Pubkey,
    bump: u8,
    vote_weight: u64,
    support: bool,
    now: i64,
) -> (r: Result<VoteCast, ErrorCode>)
    ensures
        match r {
            Err(e) => {
                &&& vote_error(*old(proposal), old(votes)@, proposal_key, voter, vote_weight, support, now) == Some(e)
                &&& *final(proposal) == *old(proposal)
                &&& final(votes)@ == old(votes)@
            },
            Ok(ev) => {
                &&& vote_error(*old(proposal), old(votes)@, proposal_key, voter, vote_weight, support, now) is None
                &&& *final(proposal) == proposal_after_vote(*old(proposal), vote_weight, support)
                &&& final(votes)@ == old(votes)@.push(
                    VoteRecord { voter, proposal: proposal_key, weight: vote_weight, support, voted_at: now, bump },
                )
                &&& ev == (VoteCast {
                    proposal: proposal_key,
                    voter,
                    weight: vote_weight,
                    support,
                    votes_for: final(proposal).votes_for,
                    votes_against: final(proposal).votes_against,
                })
            },
        },
{
    if proposal.status != ProposalStatus::Active {
        return Err(ErrorCode::ProposalNotActive);
    }
    if now >= proposal.voting_ends_at {
        return Err(ErrorCode::VotingEnded);
    }
    if find_vote(votes, &proposal_key, &voter) {
        return Err(ErrorCode::AlreadyVoted);
    }
    if support {
        match proposal.votes_for.checked_add(vote_weight) {
            Some(v) => proposal.votes_for = v,
            None => return Err(ErrorCode::MathOverflow),
        }
    } else {
        match proposal.votes_against.checked_add(vote_weight) {
            Some(v) => proposal.votes_against = v,
            None => return Err(ErrorCode::MathOverflow),
        }
    }
    votes.push(VoteRecord { voter, proposal: proposal_key, weight: vote_weight, support, voted_at: now, bump });
    Ok(VoteCast {
        proposal: proposal_key,
        voter,
        weight: vote_weight,
        support,
        votes_for: proposal.votes_for,
        votes_against: proposal.votes_against,
    })
}

/// The smallest winning tally that counts as a supermajority of `total`
/// votes at `percent` percent (truncating).
pub open spec fn supermajority_threshold(total: int, percent: int) -> int {
    total * percent / 100
}

/// The larger of the two tallies.
pub open spec fn winner_votes(p: Proposal) -> int {
    if p.votes_for >= p.votes_against { p.votes_for as int } else { p.votes_against as int }
}

/// The first check that executing a proposal fails, if any.
pub open spec fn execute_error(config: Config, market: Market, p: Proposal, now: i64) -> Option<ErrorCode> {
    let total = p.votes_for + p.votes_against;
    if p.status != ProposalStatus::Active {
        Some(ErrorCode::ProposalNotActive)
    } else if now < p.voting_ends_at {
        Some(ErrorCode::VotingNotEnded)
    } else if total > u64::MAX {
        Some(ErrorCode::MathOverflow)
    } else if total < config.quorum {
        Some(ErrorCode::QuorumNotReached)
    } else if winner_votes(p) < supermajority_threshold(total, config.supermajority_percent as int) {
        Some(ErrorCode::NoSupermajority)
    } else if market.status != MarketStatus::Active {
        Some(ErrorCode::MarketNotActive)
    } else {
        None
    }
}

/// The outcome a tally decides: YES exactly when more weight voted for.
pub open spec fn tallied_outcome(p: Proposal) -> bool {
    p.votes_for > p.votes_against
}

/// The market once resolved to the outcome `p`'s tally decides.
pub open spec fn market_after_execute(m: Market, p: Proposal, now: i64) -> Market {
    Market { status: MarketStatus::Resolved, outcome: Some(tallied_outcome(p)), resolved_at: Some(now), ..m }
}

/// The proposal once executed.
pub open spec fn proposal_after_execute(p: Proposal) -> Proposal {
    Proposal { status: ProposalStatus::Executed, ..p }
}

/// Executes a proposal whose voting window has closed: if the combined vote
/// weight reaches the quorum and the larger side holds at least
/// `supermajority_percent` percent of it, the market is resolved to the
/// side with more weight and the proposal is marked executed.
///
/// The checks run in this order: the proposal is active, its window has
/// closed, the tally fits in 64 bits, the quorum is reached, the
/// supermajority holds, and last the market is still active, so that a
/// market is resolved at most once. Executing a proposal twice fails with
/// `ProposalNotActive`. On failure nothing changes.
///
/// The event's `proposer_correct` says whether the proposer's outcome won;
/// `stake_settlement` turns it into where the proposer's stake goes.
pub fn execute_resolution(
    config: &Config,
    market: &mut Market,
    proposal: &mut Proposal,
    market_key: Pubkey,
    proposal_key: Pubkey,
    now: i64,
) -> (r: Result<MarketResolved, ErrorCode>)
    ensures
        old(market).wf() ==> final(market).wf(),
        match r {
            Err(e) => {
                &&& execute_error(*config, *old(market), *old(proposal), now) == Some(e)
                &&& *final(market) == *old(market)
                &&& *final(proposal) == *old(proposal)
            },
            Ok(ev) => {
                &&& execute_error(*config, *old(market), *old(proposal), now) is None
                &&& *final(market) == market_after_execute(*old(market), *old(proposal), now)
                &&& *final(proposal) == proposal_after_execute(*old(proposal))
                &&& ev == (MarketResolved {
                    market: market_key,
                    proposal: proposal_key,
                    outcome: tallied_outcome(*old(proposal)),
                    total_votes: (old(proposal).votes_for + old(proposal).votes_against) as u64,
                    proposer_correct: tallied_outcome(*old(proposal)) == old(proposal).outcome,
                })
            },
        },
{
    if proposal.status != ProposalStatus::Active {
        return Err(ErrorCode::ProposalNotActive);
    }
    if now < proposal.voting_ends_at {
        return Err(ErrorCode::VotingNotEnded);
    }
    let total_votes: u64 = match proposal.votes_for.checked_add(proposal.votes_against) {
        Some(t) => t,
        None => return Err(ErrorCode::MathOverflow),
    };
    if total_votes < config.quorum {
        return Err(ErrorCode::QuorumNotReached);
    }
    let winner: u64 = if proposal.votes_for >= proposal.votes_against {
        proposal.votes_for
    } else {
        proposal.votes_against
    };
    proof {
        assert((total_votes as int) * (config.supermajority_percent as int) <= u64::MAX as int * 255) by (nonlinear_arith)
            requires total_votes <= u64::MAX, config.supermajority_percent <= 255, total_votes >= 0, config.supermajority_percent >= 0;
    }
    let threshold: u128 = (total_votes as u128) * (config.supermajority_percent as u128) / 100;
    if (winner as u128) < threshold {
        return Err(ErrorCode::NoSupermajority);
    }
    if market.status != MarketStatus::Active {
        return Err(ErrorCode::MarketNotActive);
    }
    let outcome = proposal.votes_for > proposal.votes_against;
    market.status = MarketStatus::Resolved;
    market.outcome = Some(outcome);
    market.resolved_at = Some(now);
    proposal.status = ProposalStatus::Executed;
    Ok(MarketResolved {
        market: market_key,
        proposal: proposal_key,
        outcome,
        total_votes,
        proposer_correct: outcome == proposal.outcome,
    })
}

/// Where a proposer's escrowed stake goes once its proposal is executed.
#[derive(Clone, Copy, PartialEq, Eq, Structural, Debug)]
pub struct StakeSettlement {
    /// Returned to the proposer.
    pub to_proposer: u64,
    /// Forfeited to the protocol's treasury.
    pub to_treasury: u64,
}

/// The rule for a proposer's stake after execution: a proposer whose
/// outcome won gets the whole stake back; one whose outcome lost forfeits
/// it whole to the treasury. Voters' escrowed weight is not at stake: each
/// voter gets back exactly the `weight` of their vote record.
pub fn stake_settlement(proposal_stake: u64, proposer_correct: bool) -> (r: StakeSettlement)
    ensures
        proposer_correct ==> r == (StakeSettlement { to_proposer: proposal_stake, to_treasury: 0 }),
        !proposer_correct ==> r == (StakeSettlement { to_proposer: 0, to_treasury: proposal_stake }),
        r.to_proposer + r.to_treasury == proposal_stake,
{
    if proposer_correct {
        StakeSettlement { to_proposer: proposal_stake, to_treasury: 0 }
    } else {
        StakeSettlement { to_proposer: 0, to_treasury: proposal_stake }
    }
}

/// A voter who has cast a vote on a proposal cannot vote on it again: once
/// a first vote has been accepted, any further vote by the same voter fails
/// with `AlreadyVoted`, whatever its weight or side, while the voting
/// window is still open.
pub proof fn lemma_second_vote_rejected(
    p: Proposal,
    votes: Seq<VoteRecord>,
    proposal_key: Pubkey,
    voter: Pubkey,
    bump: u8,
    weight: u64,
    support: bool,
    voted_at: i64,
    second_weight: u64,
    second_support: bool,
    now: i64,
)
    requires
        vote_error(p, votes, proposal_key, voter, weight, support, voted_at) is None,
        now < p.voting_ends_at,
    ensures
        vote_error(
            proposal_after_vote(p, weight, support),
            votes.push(VoteRecord { voter, proposal: proposal_key, weight, support, voted_at, bump }),
            proposal_key,
            voter,
            second_weight,
            second_support,
            now,
        ) == Some(ErrorCode::AlreadyVoted),
{
    let after = votes.push(VoteRecord { voter, proposal: proposal_key, weight, support, voted_at, bump });
    assert(after[votes.len() as int].proposal@ == proposal_key@ && after[votes.len() as int].voter@ == voter@);
}

/// Executing a proposal cannot be repeated: once a proposal has been
/// executed, executing it again fails with `ProposalNotActive` at any time
/// and under any configuration, and so changes nothing.
pub proof fn lemma_execute_not_repeatable(
    config: Config,
    market: Market,
    p: Proposal,
    now: i64,
    later_config: Config,
    later: i64,
)
    requires
        execute_error(config, market, p, now) is None,
    ensures
        execute_error(
            later_config,
            market_after_execute(market, p, now),
            proposal_after_execute(p),
            later,
        ) == Some(ErrorCode::ProposalNotActive),
{
}

/// A proposal backed by every vote cast, with at least the quorum of weight
/// behind it, executes once its window has closed on a market still
/// active, and resolves the market to YES.
pub proof fn lemma_unanimous_quorate_proposal_executes(config: Config, market: Market, p: Proposal, now: i64)
    requires
        config.wf(),
        market.status == MarketStatus::Active,
        p.status == ProposalStatus::Active,
        now >= p.voting_ends_at,
        p.votes_against == 0,
        p.votes_for > 0,
        p.votes_for >= config.quorum,
    ensures
        execute_error(config, market, p, now) is None,
        market_after_execute(market, p, now).outcome == Some(true),
        market_after_execute(market, p, now).status == MarketStatus::Resolved,
{
    let total = p.votes_for as int;
    let pct = config.supermajority_percent as int;
    assert(total * pct <= total * 100) by (nonlinear_arith)
        requires total >= 0, pct <= 100;
    assert(supermajority_threshold(total, pct) <= total) by (nonlinear_arith)
        requires total * pct <= total * 100, total >= 0, pct >= 0,
            supermajority_threshold(total, pct) == total * pct / 100;
}

} // verus!
