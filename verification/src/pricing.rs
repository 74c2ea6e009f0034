//! What a deposit yields: the shares issued for it, the paired-asset amount
//! charged for it, and the balances that result.
//!
//! All quantities are unsigned 128-bit integers. The specification computes
//! on mathematical integers, and a deposit is rejected whenever one of its
//! intermediate or final quantities does not fit in 128 bits.

use vstd::prelude::*;
use crate::error::PoolError;

verus! {

/// The terms of one deposit, as the caller and the host supply them.
#[derive(Clone, Copy, Debug, PartialEq, Eq, Structural)]
pub struct DepositOrder {
    /// Native amount attached to the call.
    pub payment: u128,
    /// Native balance of the pool before `payment` was credited.
    pub native_reserve: u128,
    /// Least number of shares the caller accepts.
    pub min_liquidity: u128,
    /// Most units of the paired asset the caller is willing to pay.
    pub max_tokens: u128,
}

/// The result of a deposit that was accepted.
#[derive(Clone, Copy, Debug, PartialEq, Eq, Structural)]
pub struct Deposit {
    /// Shares issued to the caller.
    pub minted_shares: u128,
    /// Units of the paired asset to move into the pool.
    pub token_amount: u128,
    /// Share supply after the deposit.
    pub total_shares: u128,
    /// The caller's share balance after the deposit.
    pub caller_shares: u128,
}

/// Units of the paired asset charged for `payment` against the given reserves:
/// the truncated proportional amount plus one unit, so that truncation never
/// favours the depositor.
pub open spec fn token_amount(payment: nat, paired_asset_reserve: nat, native_reserve: nat) -> nat {
    payment * paired_asset_reserve / native_reserve + 1
}

/// Shares issued for `payment` against the given supply and reserve, truncated
/// so that rounding never dilutes the existing holders.
pub open spec fn minted_shares(payment: nat, total_shares: nat, native_reserve: nat) -> nat {
    payment * total_shares / native_reserve
}

/// The balance that an account holds: an account without an entry holds nothing.
pub open spec fn held_shares(held: Option<u128>) -> nat {
    match held {
        Some(shares) => shares as nat,
        None => 0,
    }
}

/// First deposit into an empty pool: one share per native unit that the pool
/// holds afterwards, at the price the caller's cap fixes.
pub open spec fn bootstrap_outcome(order: DepositOrder) -> Result<Deposit, PoolError> {
    if order.native_reserve + order.payment > u128::MAX {
        Err(PoolError::ArithmeticOverflow)
    } else {
        let minted = (order.native_reserve + order.payment) as u128;
        Ok(
            Deposit {
                minted_shares: minted,
                token_amount: order.max_tokens,
                total_shares: minted,
                caller_shares: minted,
            },
        )
    }
}

/// Deposit into a live pool, priced by the current ratio of the reserves.
pub open spec fn proportional_outcome(
    total_shares: u128,
    paired_asset_reserve: u128,
    held: Option<u128>,
    order: DepositOrder,
) -> Result<Deposit, PoolError> {
    let tokens = token_amount(
        order.payment as nat,
        paired_asset_reserve as nat,
        order.native_reserve as nat,
    );
    let minted = minted_shares(
        order.payment as nat,
        total_shares as nat,
        order.native_reserve as nat,
    );
    if order.min_liquidity == 0 {
        Err(PoolError::ZeroMinLiquidity)
    } else if order.native_reserve == 0 {
        Err(PoolError::ZeroReserve)
    } else if order.payment * paired_asset_reserve > u128::MAX || tokens > u128::MAX
        || order.payment * total_shares > u128::MAX {
        Err(PoolError::ArithmeticOverflow)
    } else if tokens > order.max_tokens {
        Err(PoolError::TokenAmountAboveMax)
    } else if minted < order.min_liquidity {
        Err(PoolError::MintedBelowMin)
    } else if held_shares(held) + minted > u128::MAX || total_shares + minted > u128::MAX {
        Err(PoolError::ArithmeticOverflow)
    } else {
        Ok(
            Deposit {
                minted_shares: minted as u128,
                token_amount: tokens as u128,
                total_shares: (total_shares + minted) as u128,
                caller_shares: (held_shares(held) + minted) as u128,
            },
        )
    }
}

/// What a deposit yields against a pool with the given share supply and
/// paired-asset reserve, for a caller whose ledger entry is `held`.
pub open spec fn deposit_outcome(
    total_shares: u128,
    paired_asset_reserve: u128,
    held: Option<u128>,
    order: DepositOrder,
) -> Result<Deposit, PoolError> {
    if order.max_tokens == 0 {
        Err(PoolError::ZeroMaxTokens)
    } else if order.payment == 0 {
        Err(PoolError::ZeroPayment)
    } else if total_shares == 0 {
        bootstrap_outcome(order)
    } else {
        proportional_outcome(total_shares, paired_asset_reserve, held, order)
    }
}

/// Prices one deposit. Nothing is changed: the caller records the balances
/// of an accepted deposit, and drops a rejected one.
pub fn price_deposit(
    total_shares: u128,
    paired_asset_reserve: u128,
    held: Option<u128>,
    order: &DepositOrder,
) -> (outcome: Result<Deposit, PoolError>)
    ensures
        outcome == deposit_outcome(total_shares, paired_asset_reserve, held, *order),
{
    if order.max_tokens == 0 {
        return Err(PoolError::ZeroMaxTokens);
    }
    if order.payment == 0 {
        return Err(PoolError::ZeroPayment);
    }
    if total_shares == 0 {
        return match order.native_reserve.checked_add(order.payment) {
            Some(minted) => Ok(
                Deposit {
                    minted_shares: minted,
                    token_amount: order.max_tokens,
                    total_shares: minted,
                    caller_shares: minted,
                },
            ),
            None => Err(PoolError::ArithmeticOverflow),
        };
    }
    if order.min_liquidity == 0 {
        return Err(PoolError::ZeroMinLiquidity);
    }
    if order.native_reserve == 0 {
        return Err(PoolError::ZeroReserve);
    }
    let tokens: u128 = match order.payment.checked_mul(paired_asset_reserve) {
        Some(product) => match (product / order.native_reserve).checked_add(1) {
            Some(tokens) => tokens,
            None => { return Err(PoolError::ArithmeticOverflow); },
        },
        None => { return Err(PoolError::ArithmeticOverflow); },
    };
    let minted: u128 = match order.payment.checked_mul(total_shares) {
        Some(product) => product / order.native_reserve,
        None => { return Err(PoolError::ArithmeticOverflow); },
    };
    if tokens > order.max_tokens {
        return Err(PoolError::TokenAmountAboveMax);
    }
    if minted < order.min_liquidity {
        return Err(PoolError::MintedBelowMin);
    }
    let held_now: u128 = match held {
        Some(shares) => shares,
        None => 0,
    };
    let caller_shares: u128 = match held_now.checked_add(minted) {
        Some(sum) => sum,
        None => { return Err(PoolError::ArithmeticOverflow); },
    };
    let new_total: u128 = match total_shares.checked_add(minted) {
        Some(sum) => sum,
        None => { return Err(PoolError::ArithmeticOverflow); },
    };
    Ok(
        Deposit {
            minted_shares: minted,
            token_amount: tokens,
            total_shares: new_total,
            caller_shares,
        },
    )
}

} // verus!
