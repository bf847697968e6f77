use vstd::prelude::*;
use crate::state::Pubkey;

verus! {

/// The governance token's issuer: who may mint, and how much exists.
#[derive(Clone, Copy, Debug)]
pub struct TokenConfig {
    pub authority: Pubkey,
    pub mint: Pubkey,
    pub total_supply: u64,
    pub bump: u8,
}

/// Reported when the governance token is set up.
#[derive(Clone, Copy, Debug)]
pub struct TokenInitialized {
    pub authority: Pubkey,
    pub mint: Pubkey,
}

/// Reported when governance tokens are minted.
#[derive(Clone, Copy, Debug)]
pub struct TokensMinted {
    pub recipient: Pubkey,
    pub amount: u64,
    pub total_supply: u64,
}

/// Sets up the governance token's issuer with nothing minted yet.
pub fn initialize(authority: Pubkey, mint: Pubkey, bump: u8) -> (r: (TokenConfig, TokenInitialized))
    ensures
        r.0 == (TokenConfig { authority, mint, total_supply: 0, bump }),
        r.1 == (TokenInitialized { authority, mint }),
{
    (TokenConfig { authority, mint, total_supply: 0, bump }, TokenInitialized { authority, mint })
}

/// Records that `amount` tokens were minted to `recipient`; the caller
/// performs the mint on the ledger. The supply cannot exceed 64 bits.
pub fn mint_tokens(config: &mut TokenConfig, recipient: Pubkey, amount: u64) -> (r: TokensMinted)
    requires
        old(config).total_supply + amount <= u64::MAX,
    ensures
        *final(config) == (TokenConfig { total_supply: (old(config).total_supply + amount) as u64, ..*old(config) }),
        r == (TokensMinted { recipient, amount, total_supply: final(config).total_supply }),
{
    config.total_supply = config.total_supply + amount;
    TokensMinted { recipient, amount, total_supply: config.total_supply }
}

} // verus!
