use vstd::prelude::*;

verus! {

/// An account identity: 32 opaque bytes.
pub type Pubkey = [u8; 32];

/// How long after trading closes a market should be resolved.
pub const RESOLUTION_DELAY: i64 = 604800;

/// The furthest ahead a market's trading close may be set.
pub const MAX_MARKET_DURATION: i64 = 31536000;

/// How long a proposal stays open to votes.
pub const VOTING_PERIOD: i64 = 172800;

/// Whether two identities are the same.
pub fn same_key(a: &Pubkey, b: &Pubkey) -> (r: bool)
    ensures
        r == (a@ == b@),
{
    let mut i: usize = 0;
    while i < 32
        invariant
            0 <= i <= 32,
            a@.len() == 32,
            b@.len() == 32,
            forall|j: int| 0 <= j < i ==> a@[j] == b@[j],
        decreases 32 - i,
    {
        if a[i] != b[i] {
            return false;
        }
        i = i + 1;
    }
    proof {
        assert(a@ =~= b@);
    }
    true
}

/// The protocol's process-wide parameters, set once.
#[derive(Clone, Copy, Debug)]
pub struct Config {
    pub authority: Pubkey,
    pub governance_token_mint: Pubkey,
    pub min_liquidity: u64,
    pub proposal_stake: u64,
    pub quorum: u64,
    pub supermajority_percent: u8,
    pub treasury: Pubkey,
    pub total_markets: u64,
    pub total_volume: u64,
    pub bump: u8,
}

impl Config {
    /// The supermajority lies in [51, 100] percent.
    pub open spec fn wf(&self) -> bool {
        51 <= self.supermajority_percent <= 100
    }
}

#[derive(Clone, Copy, PartialEq, Eq, Structural, Debug)]
pub enum MarketCategory {
    Crypto,
    Sports,
    Politics,
    Entertainment,
    Technology,
    Other,
}

impl MarketCategory {
    /// The category a numeric code stands for; unknown codes are `Other`.
    pub open spec fn spec_from_code(code: u8) -> MarketCategory {
        if code == 0 {
            MarketCategory::Crypto
        } else if code == 1 {
            MarketCategory::Sports
        } else if code == 2 {
            MarketCategory::Politics
        } else if code == 3 {
            MarketCategory::Entertainment
        } else if code == 4 {
            MarketCategory::Technology
        } else {
            MarketCategory::Other
        }
    }

    pub fn from_code(code: u8) -> (r: MarketCategory)
        ensures
            r == Self::spec_from_code(code),
    {
        match code {
            0 => MarketCategory::Crypto,
            1 => MarketCategory::Sports,
            2 => MarketCategory::Politics,
            3 => MarketCategory::Entertainment,
            4 => MarketCategory::Technology,
            _ => MarketCategory::Other,
        }
    }
}

#[derive(Clone, Copy, PartialEq, Eq, Structural, Debug)]
pub enum MarketStatus {
    Active,
    Resolved,
    Cancelled,
}

/// One binary-outcome market and its pricing reserves.
#[derive(Clone, Debug)]
pub struct Market {
    pub creator: Pubkey,
    pub question: String,
    pub description: String,
    pub category: MarketCategory,
    pub created_at: i64,
    pub end_time: i64,
    pub resolution_time: i64,
    pub resolution_source: String,
    pub status: MarketStatus,
    pub outcome: Option<bool>,
    pub resolved_at: Option<i64>,
    pub total_liquidity: u64,
    pub yes_pool: u64,
    pub no_pool: u64,
    pub yes_mint: Pubkey,
    pub no_mint: Pubkey,
    pub volume: u64,
    pub unique_bettors: u64,
    pub bump: u8,
}

impl Market {
    /// An active market has no outcome yet and holds reserves on both
    /// sides; a resolved one has its outcome and resolution time recorded.
    pub open spec fn wf(&self) -> bool {
        &&& self.resolution_time == self.end_time + RESOLUTION_DELAY
        &&& self.status == MarketStatus::Active ==> self.outcome is None && self.resolved_at is None
        &&& self.status == MarketStatus::Active ==> self.yes_pool > 0 && self.no_pool > 0
        &&& self.status == MarketStatus::Resolved ==> self.outcome is Some && self.resolved_at is Some
    }
}

#[derive(Clone, Copy, PartialEq, Eq, Structural, Debug)]
pub enum ProposalStatus {
    Active,
    Executed,
    Rejected,
}

/// A proposed outcome for a market, with its running vote tally.
#[derive(Clone, Debug)]
pub struct Proposal {
    pub market: Pubkey,
    pub proposer: Pubkey,
    pub outcome: bool,
    pub evidence: String,
    pub proposed_at: i64,
    pub voting_ends_at: i64,
    pub votes_for: u64,
    pub votes_against: u64,
    pub status: ProposalStatus,
    pub bump: u8,
}

impl Proposal {
    /// The voting window is fixed from the time of proposal.
    pub open spec fn wf(&self) -> bool {
        self.voting_ends_at == self.proposed_at + VOTING_PERIOD
    }
}

/// The record of one voter's vote on one proposal.
#[derive(Clone, Copy, Debug)]
pub struct VoteRecord {
    pub voter: Pubkey,
    pub proposal: Pubkey,
    pub weight: u64,
    pub support: bool,
    pub voted_at: i64,
    pub bump: u8,
}

} // verus!
