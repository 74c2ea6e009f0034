//! One call of `add_liquidity` as a function of plain values: from what the
//! pool holds and what the call states, to the balances to record and the
//! transfer to request.
//!
//! A host that keeps the share ledger in storage of its own reads the
//! caller's entry, settles the deposit here, and writes back what the
//! settlement says. The pool in memory does the same on its own ledger.

use vstd::prelude::*;
use crate::context::{CallContext, CallContextView};
use crate::error::PoolError;
use crate::pricing::{deposit_outcome, price_deposit, Deposit, DepositOrder};
use crate::transfer::{transfer_for, TransferRequest, TransferRequestView};

verus! {

/// An accepted deposit together with the transfer to request for it.
#[derive(Clone, Debug, PartialEq, Eq)]
pub struct Settlement {
    /// The shares issued, the amount charged and the balances that result.
    pub deposit: Deposit,
    /// The transfer to request from the paired-asset ledger.
    pub transfer: TransferRequest,
}

/// A settlement with its transfer request viewed.
pub struct SettlementView {
    pub deposit: Deposit,
    pub transfer: TransferRequestView,
}

impl View for Settlement {
    type V = SettlementView;

    open spec fn view(&self) -> SettlementView {
        SettlementView { deposit: self.deposit, transfer: self.transfer@ }
    }
}

/// The deposit order that a call states.
pub open spec fn order_of(min_liquidity: u128, max_tokens: u128, ctx: CallContextView)
    -> DepositOrder {
    DepositOrder {
        payment: ctx.payment,
        native_reserve: ctx.native_reserve,
        min_liquidity,
        max_tokens,
    }
}

/// What a call yields. The deposit is priced first; for a deposit that is
/// accepted the transfer request is drawn up, for the amount charged, from
/// the pool's account, within the call's gas budget. The first failure on
/// that way is the reason for which the call is rejected.
pub open spec fn settlement_outcome(
    total_shares: u128,
    paired_asset_reserve: u128,
    held: Option<u128>,
    paired_asset_ledger: Seq<char>,
    min_liquidity: u128,
    max_tokens: u128,
    ctx: CallContextView,
) -> Result<SettlementView, PoolError> {
    match deposit_outcome(
        total_shares,
        paired_asset_reserve,
        held,
        order_of(min_liquidity, max_tokens, ctx),
    ) {
        Err(e) => Err(e),
        Ok(deposit) => match transfer_for(
            paired_asset_ledger,
            ctx.pool_account,
            deposit.token_amount,
            ctx.prepaid_gas,
        ) {
            Err(e) => Err(e),
            Ok(transfer) => Ok(SettlementView { deposit, transfer }),
        },
    }
}

/// Settles one call against a pool with the given share supply, paired-asset
/// reserve and paired-asset ledger, for a caller whose ledger entry is `held`.
/// Nothing is changed: the caller of this function records the balances of an
/// accepted deposit and requests its transfer, and drops a rejected call.
pub fn settle_deposit(
    total_shares: u128,
    paired_asset_reserve: u128,
    held: Option<u128>,
    paired_asset_ledger: &String,
    min_liquidity: u128,
    max_tokens: u128,
    ctx: &CallContext,
) -> (outcome: Result<Settlement, PoolError>)
    ensures
        match outcome {
            Ok(settlement) => settlement_outcome(
                total_shares,
                paired_asset_reserve,
                held,
                paired_asset_ledger@,
                min_liquidity,
                max_tokens,
                ctx@,
            ) == Ok::<SettlementView, PoolError>(settlement@),
            Err(e) => settlement_outcome(
                total_shares,
                paired_asset_reserve,
                held,
                paired_asset_ledger@,
                min_liquidity,
                max_tokens,
                ctx@,
            ) == Err::<SettlementView, PoolError>(e),
        },
{
    let order = DepositOrder {
        payment: ctx.payment,
        native_reserve: ctx.native_reserve,
        min_liquidity,
        max_tokens,
    };
    let deposit = match price_deposit(total_shares, paired_asset_reserve, held, &order) {
        Ok(deposit) => deposit,
        Err(e) => {
            return Err(e);
        },
    };
    match TransferRequest::for_deposit(
        paired_asset_ledger.clone(),
        ctx.pool_account.clone(),
        deposit.token_amount,
        ctx.prepaid_gas,
    ) {
        Ok(transfer) => Ok(Settlement { deposit, transfer }),
        Err(e) => Err(e),
    }
}

} // verus!
