use vstd::prelude::*;
use crate::error::ErrorCode;
use crate::state::{Market, MarketStatus, Pubkey};

verus! {

/// Reported when winning claims are redeemed.
#[derive(Clone, Copy, Debug)]
pub struct WinningsClaimed {
    pub market: Pubkey,
    pub user: Pubkey,
    pub amount: u64,
}

/// What redeeming winning claims asks of the ledger.
#[derive(Clone, Copy, Debug)]
pub struct Redemption {
    /// Whether the claims burned are YES claims (otherwise NO claims).
    pub burn_yes: bool,
    /// Claims burned from the user, and settlement currency paid to the user
    /// out of the market's custody: one unit per claim.
    pub amount: u64,
    pub event: WinningsClaimed,
}

/// Redeems `amount` winning claims of a resolved market, one unit of
/// settlement currency per claim.
///
/// The caller burns `amount` claims of the winning side from the user, then
/// pays `amount` from the market's custody to the user; if either ledger
/// operation fails, the whole redemption fails. The market is not changed.
pub fn claim_winnings(market: &Market, market_key: Pubkey, user: Pubkey, amount: u64) -> (r: Result<Redemption, ErrorCode>)
    ensures
        market.status != MarketStatus::Resolved ==> r == Err::<Redemption, ErrorCode>(ErrorCode::MarketNotResolved),
        market.status == MarketStatus::Resolved && market.outcome is None ==> r == Err::<Redemption, ErrorCode>(
            ErrorCode::OutcomeNotSet,
        ),
        market.status == MarketStatus::Resolved && market.outcome is Some ==> r is Ok,
        r matches Ok(red) ==> {
            &&& market.outcome == Some(red.burn_yes)
            &&& red.amount == amount
            &&& red.event == (WinningsClaimed { market: market_key, user, amount })
        },
{
    if market.status != MarketStatus::Resolved {
        return Err(ErrorCode::MarketNotResolved);
    }
    let outcome = match market.outcome {
        Some(o) => o,
        None => return Err(ErrorCode::OutcomeNotSet),
    };
    Ok(Redemption { burn_yes: outcome, amount, event: WinningsClaimed { market: market_key, user, amount } })
}

} // verus!
