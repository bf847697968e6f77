use vstd::prelude::*;
use crate::error::ErrorCode;
use crate::state::{Config, Pubkey};

verus! {

/// Reported once the protocol's parameters are set.
#[derive(Clone, Copy, Debug)]
pub struct ConfigInitialized {
    pub authority: Pubkey,
    pub governance_token_mint: Pubkey,
    pub min_liquidity: u64,
    pub proposal_stake: u64,
    pub quorum: u64,
}

/// Sets the protocol's parameters. The supermajority must lie in [51, 100]
/// percent; running totals start at zero.
pub fn initialize_config(
    authority: Pubkey,
    governance_token_mint: Pubkey,
    treasury: Pubkey,
    bump: u8,
    min_liquidity: u64,
    proposal_stake: u64,
    quorum: u64,
    supermajority_percent: u8,
) -> (r: Result<(Config, ConfigInitialized), ErrorCode>)
    ensures
        !(51 <= supermajority_percent <= 100) <==> r == Err::<(Config, ConfigInitialized), ErrorCode>(
            ErrorCode::InvalidSupermajority,
        ),
        51 <= supermajority_percent <= 100 <==> r is Ok,
        r matches Ok((c, ev)) ==> {
            &&& c.wf()
            &&& c.authority == authority
            &&& c.governance_token_mint == governance_token_mint
            &&& c.treasury == treasury
            &&& c.bump == bump
            &&& c.min_liquidity == min_liquidity
            &&& c.proposal_stake == proposal_stake
            &&& c.quorum == quorum
            &&& c.supermajority_percent == supermajority_percent
            &&& c.total_markets == 0
            &&& c.total_volume == 0
            &&& ev == (ConfigInitialized { authority, governance_token_mint, min_liquidity, proposal_stake, quorum })
        },
{
    if supermajority_percent < 51 || supermajority_percent > 100 {
        return Err(ErrorCode::InvalidSupermajority);
    }
    let config = Config {
        authority,
        governance_token_mint,
        min_liquidity,
        proposal_stake,
        quorum,
        supermajority_percent,
        treasury,
        total_markets: 0,
        total_volume: 0,
        bump,
    };
    let event = ConfigInitialized { authority, governance_token_mint, min_liquidity, proposal_stake, quorum };
    Ok((config, event))
}

} // verus!
