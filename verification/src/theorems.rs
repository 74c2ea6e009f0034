//! What holds of every call on every pool, proved from the definitions that
//! the contracts of the pool's operations are stated in.

use vstd::prelude::*;
use crate::context::CallContextView;
use crate::error::PoolError;
use crate::pool::{lemma_add_liquidity_conserves_supply, PoolView};
use crate::pricing::{held_shares, minted_shares, proportional_outcome, token_amount};
use crate::settlement::{order_of, SettlementView};
use crate::supply::lemma_balance_within_sum;
use crate::transfer::GAS_RESERVED;

verus! {

/// One call of `add_liquidity`, as its arguments.
pub struct Call {
    pub min_liquidity: u128,
    pub max_tokens: u128,
    pub ctx: CallContextView,
}

/// The pool after `calls` were made on it in order.
pub open spec fn replay(pool: PoolView, calls: Seq<Call>) -> PoolView
    decreases calls.len(),
{
    if calls.len() == 0 {
        pool
    } else {
        let call = calls.last();
        replay(pool, calls.drop_last()).add_liquidity(
            call.min_liquidity,
            call.max_tokens,
            call.ctx,
        )
    }
}

/// The first deposit into an empty pool is accepted whenever it carries a
/// payment and a cap, the pool's balance after it fits in 128 bits, and the
/// gas budget covers what the pool keeps back. It issues one share per native
/// unit that the pool then holds, all of them to the caller, and asks for a
/// transfer of exactly the cap. For a pool without earlier native balance
/// that is one share per unit paid.
pub proof fn theorem_bootstrap(
    pool: PoolView,
    min_liquidity: u128,
    max_tokens: u128,
    ctx: CallContextView,
)
    requires
        pool.total_shares == 0,
        ctx.payment > 0,
        max_tokens > 0,
        ctx.native_reserve + ctx.payment <= u128::MAX,
        ctx.prepaid_gas >= GAS_RESERVED,
    ensures
        ({
            let after = pool.add_liquidity(min_liquidity, max_tokens, ctx);
            &&& pool.settle(min_liquidity, max_tokens, ctx) matches Ok(settlement)
            &&& settlement.deposit.minted_shares == ctx.native_reserve + ctx.payment
            &&& settlement.transfer.amount == max_tokens
            &&& after.total_shares == ctx.native_reserve + ctx.payment
            &&& after.lp_shares.contains_key(ctx.caller)
            &&& after.lp_shares[ctx.caller] == ctx.native_reserve + ctx.payment
            &&& ctx.native_reserve == 0 ==> {
                &&& after.total_shares == ctx.payment
                &&& after.lp_shares[ctx.caller] == ctx.payment
            }
        }),
{
}

/// Whatever calls are made on a pool whose share supply is the sum of its
/// ledger, accepted or rejected and in whatever order, the supply is the sum
/// of the ledger after each of them.
pub proof fn theorem_supply_conserved(pool: PoolView, calls: Seq<Call>)
    requires
        pool.conserved(),
    ensures
        replay(pool, calls).conserved(),
    decreases calls.len(),
{
    if calls.len() > 0 {
        theorem_supply_conserved(pool, calls.drop_last());
        let call = calls.last();
        lemma_add_liquidity_conserves_supply(
            replay(pool, calls.drop_last()),
            call.min_liquidity,
            call.max_tokens,
            call.ctx,
        );
    }
}

/// No call takes shares away: in a pool whose supply is the sum of its
/// ledger, every account with an entry keeps it, with at least the shares it
/// had.
pub proof fn theorem_shares_never_decrease(
    pool: PoolView,
    min_liquidity: u128,
    max_tokens: u128,
    ctx: CallContextView,
    account: Seq<char>,
)
    requires
        pool.conserved(),
        pool.lp_shares.contains_key(account),
    ensures
        pool.add_liquidity(min_liquidity, max_tokens, ctx).lp_shares.contains_key(account),
        pool.add_liquidity(min_liquidity, max_tokens, ctx).lp_shares[account]
            >= pool.lp_shares[account],
        pool.add_liquidity(min_liquidity, max_tokens, ctx).total_shares >= pool.total_shares,
{
    lemma_balance_within_sum(pool.lp_shares, account);
}

/// A pool with shares outstanding holds native balance. A deposit is only
/// accepted with a payment, so the pool's native balance after it is above
/// zero and so is the share supply; and a live pool only accepts a deposit
/// while its native reserve is above zero.
pub proof fn theorem_live_pool_holds_native_balance(
    pool: PoolView,
    min_liquidity: u128,
    max_tokens: u128,
    ctx: CallContextView,
)
    requires
        pool.settle(min_liquidity, max_tokens, ctx) is Ok,
    ensures
        pool.add_liquidity(min_liquidity, max_tokens, ctx).total_shares > 0 ==> ctx.native_reserve
            + ctx.payment > 0,
        ctx.payment > 0,
        pool.total_shares > 0 ==> ctx.native_reserve > 0,
        pool.total_shares == 0 ==> pool.add_liquidity(
            min_liquidity,
            max_tokens,
            ctx,
        ).total_shares > 0,
{
}

/// A deposit into a live pool whose paired-asset cost is above the caller's
/// cap is rejected, and the pool stays as it was. Where nothing else is wrong
/// with the call and the products fit in 128 bits, the reason given is the
/// cap.
pub proof fn theorem_cost_above_cap_rejected(
    pool: PoolView,
    min_liquidity: u128,
    max_tokens: u128,
    ctx: CallContextView,
)
    requires
        pool.total_shares > 0,
        ctx.native_reserve > 0,
        token_amount(
            ctx.payment as nat,
            pool.paired_asset_reserve as nat,
            ctx.native_reserve as nat,
        ) > max_tokens,
    ensures
        pool.settle(min_liquidity, max_tokens, ctx) is Err,
        pool.add_liquidity(min_liquidity, max_tokens, ctx) == pool,
        ({
            &&& max_tokens > 0
            &&& ctx.payment > 0
            &&& min_liquidity > 0
            &&& ctx.payment * pool.paired_asset_reserve <= u128::MAX
            &&& ctx.payment * pool.total_shares <= u128::MAX
            &&& token_amount(
                ctx.payment as nat,
                pool.paired_asset_reserve as nat,
                ctx.native_reserve as nat,
            ) <= u128::MAX
        }) ==> pool.settle(min_liquidity, max_tokens, ctx) == Err::<SettlementView, PoolError>(
            PoolError::TokenAmountAboveMax,
        ),
{
}

/// A deposit into a live pool that would issue fewer shares than the caller
/// accepts is rejected, and the pool stays as it was. Where nothing else is
/// wrong with the call, the products fit in 128 bits and the cost is within
/// the cap, the reason given is the issuance.
pub proof fn theorem_issuance_below_floor_rejected(
    pool: PoolView,
    min_liquidity: u128,
    max_tokens: u128,
    ctx: CallContextView,
)
    requires
        pool.total_shares > 0,
        ctx.native_reserve > 0,
        minted_shares(ctx.payment as nat, pool.total_shares as nat, ctx.native_reserve as nat)
            < min_liquidity,
    ensures
        pool.settle(min_liquidity, max_tokens, ctx) is Err,
        pool.add_liquidity(min_liquidity, max_tokens, ctx) == pool,
        ({
            &&& ctx.payment > 0
            &&& ctx.payment * pool.paired_asset_reserve <= u128::MAX
            &&& ctx.payment * pool.total_shares <= u128::MAX
            &&& token_amount(
                ctx.payment as nat,
                pool.paired_asset_reserve as nat,
                ctx.native_reserve as nat,
            ) <= max_tokens
        }) ==> pool.settle(min_liquidity, max_tokens, ctx) == Err::<SettlementView, PoolError>(
            PoolError::MintedBelowMin,
        ),
{
}

/// A call without payment is rejected, whatever the pool holds, and the pool
/// stays as it was.
pub proof fn theorem_zero_payment_rejected(
    pool: PoolView,
    min_liquidity: u128,
    max_tokens: u128,
    ctx: CallContextView,
)
    requires
        ctx.payment == 0,
    ensures
        pool.settle(min_liquidity, max_tokens, ctx) == Err::<SettlementView, PoolError>(
            if max_tokens == 0 {
                PoolError::ZeroMaxTokens
            } else {
                PoolError::ZeroPayment
            },
        ),
        pool.add_liquidity(min_liquidity, max_tokens, ctx) == pool,
{
}

/// The first deposit takes nothing from its caller. In an empty pool whose
/// supply is the sum of its ledger every balance is zero, so the balance that
/// the first deposit sets for its caller is what the caller held plus what
/// was issued, as for every later deposit.
pub proof fn theorem_bootstrap_adds_to_balance(
    pool: PoolView,
    min_liquidity: u128,
    max_tokens: u128,
    ctx: CallContextView,
)
    requires
        pool.conserved(),
        pool.total_shares == 0,
        pool.settle(min_liquidity, max_tokens, ctx) is Ok,
    ensures
        held_shares(pool.held(ctx.caller)) == 0,
        pool.add_liquidity(min_liquidity, max_tokens, ctx).lp_shares[ctx.caller] == held_shares(
            pool.held(ctx.caller),
        ) + pool.settle(min_liquidity, max_tokens, ctx)->Ok_0.deposit.minted_shares,
{
    if pool.lp_shares.contains_key(ctx.caller) {
        lemma_balance_within_sum(pool.lp_shares, ctx.caller);
    }
}

/// A pool is bootstrapped once. The first accepted deposit into an empty pool
/// leaves shares outstanding, so every later deposit is priced by the ratio
/// of the reserves: where it is accepted it adds to the supply and to the
/// caller's balance what that ratio yields, and never sets them anew.
pub proof fn theorem_bootstrap_happens_once(pool: PoolView, first: Call, second: Call)
    requires
        pool.total_shares == 0,
        pool.settle(first.min_liquidity, first.max_tokens, first.ctx) is Ok,
    ensures
        ({
            let live = pool.add_liquidity(first.min_liquidity, first.max_tokens, first.ctx);
            let after = live.add_liquidity(second.min_liquidity, second.max_tokens, second.ctx);
            let order = order_of(second.min_liquidity, second.max_tokens, second.ctx);
            let held = live.held(second.ctx.caller);
            &&& live.total_shares > 0
            &&& live.settle(second.min_liquidity, second.max_tokens, second.ctx) matches Ok(
                settlement,
            ) ==> {
                &&& proportional_outcome(
                    live.total_shares,
                    live.paired_asset_reserve,
                    held,
                    order,
                ) == Ok::<crate::pricing::Deposit, PoolError>(settlement.deposit)
                &&& settlement.deposit.minted_shares == minted_shares(
                    order.payment as nat,
                    live.total_shares as nat,
                    order.native_reserve as nat,
                )
                &&& after.total_shares == live.total_shares + settlement.deposit.minted_shares
                &&& after.lp_shares[second.ctx.caller] == held_shares(held)
                    + settlement.deposit.minted_shares
            }
        }),
{
}

/// Nothing wraps around. Every quantity of an accepted deposit is the value
/// that its formula has over the mathematical integers, and so are the
/// products on the way to it.
pub proof fn theorem_accepted_deposit_is_exact(
    pool: PoolView,
    min_liquidity: u128,
    max_tokens: u128,
    ctx: CallContextView,
)
    requires
        pool.settle(min_liquidity, max_tokens, ctx) is Ok,
    ensures
        ({
            let settlement = pool.settle(min_liquidity, max_tokens, ctx)->Ok_0;
            let deposit = settlement.deposit;
            let after = pool.add_liquidity(min_liquidity, max_tokens, ctx);
            &&& settlement.transfer.gas == ctx.prepaid_gas - GAS_RESERVED
            &&& settlement.transfer.amount == deposit.token_amount
            &&& after.total_shares == deposit.total_shares
            &&& after.lp_shares[ctx.caller] == deposit.caller_shares
            &&& pool.total_shares == 0 ==> {
                &&& deposit.minted_shares == ctx.native_reserve + ctx.payment
                &&& deposit.token_amount == max_tokens
                &&& deposit.total_shares == ctx.native_reserve + ctx.payment
                &&& deposit.caller_shares == ctx.native_reserve + ctx.payment
            }
            &&& pool.total_shares > 0 ==> {
                &&& ctx.native_reserve > 0
                &&& ctx.payment * pool.paired_asset_reserve <= u128::MAX
                &&& ctx.payment * pool.total_shares <= u128::MAX
                &&& deposit.token_amount == token_amount(
                    ctx.payment as nat,
                    pool.paired_asset_reserve as nat,
                    ctx.native_reserve as nat,
                )
                &&& deposit.token_amount == ctx.payment * pool.paired_asset_reserve
                    / ctx.native_reserve as int + 1
                &&& deposit.minted_shares == minted_shares(
                    ctx.payment as nat,
                    pool.total_shares as nat,
                    ctx.native_reserve as nat,
                )
                &&& deposit.minted_shares == ctx.payment * pool.total_shares
                    / ctx.native_reserve as int
                &&& deposit.total_shares == pool.total_shares + deposit.minted_shares
                &&& deposit.caller_shares == held_shares(pool.held(ctx.caller))
                    + deposit.minted_shares
            }
        }),
{
}

/// A deposit with a quantity that does not fit in 128 bits is rejected for
/// that reason, where nothing is wrong with the call before the quantity is
/// reached: the pool's balance after the first deposit, either product of a
/// later one, or the amount charged for it.
pub proof fn theorem_overflow_rejected(
    pool: PoolView,
    min_liquidity: u128,
    max_tokens: u128,
    ctx: CallContextView,
)
    requires
        max_tokens > 0,
        ctx.payment > 0,
        pool.total_shares > 0 ==> min_liquidity > 0 && ctx.native_reserve > 0,
        if pool.total_shares == 0 {
            ctx.native_reserve + ctx.payment > u128::MAX
        } else {
            ||| ctx.payment * pool.paired_asset_reserve > u128::MAX
            ||| ctx.payment * pool.total_shares > u128::MAX
            ||| token_amount(
                ctx.payment as nat,
                pool.paired_asset_reserve as nat,
                ctx.native_reserve as nat,
            ) > u128::MAX
        },
    ensures
        pool.settle(min_liquidity, max_tokens, ctx) == Err::<SettlementView, PoolError>(
            PoolError::ArithmeticOverflow,
        ),
        pool.add_liquidity(min_liquidity, max_tokens, ctx) == pool,
{
}

/// A deposit that would lift the share supply, or the caller's balance, out
/// of 128 bits is rejected for that reason where the call passes its checks
/// on input and slippage.
pub proof fn theorem_supply_overflow_rejected(
    pool: PoolView,
    min_liquidity: u128,
    max_tokens: u128,
    ctx: CallContextView,
)
    requires
        pool.total_shares > 0,
        ctx.payment > 0,
        ctx.native_reserve > 0,
        min_liquidity > 0,
        ctx.payment * pool.paired_asset_reserve <= u128::MAX,
        ctx.payment * pool.total_shares <= u128::MAX,
        token_amount(
            ctx.payment as nat,
            pool.paired_asset_reserve as nat,
            ctx.native_reserve as nat,
        ) <= max_tokens,
        minted_shares(ctx.payment as nat, pool.total_shares as nat, ctx.native_reserve as nat)
            >= min_liquidity,
        ({
            let minted = minted_shares(
                ctx.payment as nat,
                pool.total_shares as nat,
                ctx.native_reserve as nat,
            );
            ||| pool.total_shares + minted > u128::MAX
            ||| held_shares(pool.held(ctx.caller)) + minted > u128::MAX
        }),
    ensures
        pool.settle(min_liquidity, max_tokens, ctx) == Err::<SettlementView, PoolError>(
            PoolError::ArithmeticOverflow,
        ),
        pool.add_liquidity(min_liquidity, max_tokens, ctx) == pool,
{
}

/// Rounding never favours the depositor. The paired-asset amount charged is
/// the least whole number strictly above the exact proportional amount, and
/// the shares issued are the greatest whole number not above the exact
/// proportional number.
pub proof fn theorem_rounding_favours_pool(
    payment: nat,
    paired_asset_reserve: nat,
    total_shares: nat,
    native_reserve: nat,
)
    requires
        native_reserve > 0,
    ensures
        token_amount(payment, paired_asset_reserve, native_reserve) * native_reserve > payment
            * paired_asset_reserve,
        (token_amount(payment, paired_asset_reserve, native_reserve) - 1) * native_reserve
            <= payment * paired_asset_reserve,
        minted_shares(payment, total_shares, native_reserve) * native_reserve <= payment
            * total_shares,
        (minted_shares(payment, total_shares, native_reserve) + 1) * native_reserve > payment
            * total_shares,
{
    let cost = (payment * paired_asset_reserve) as int;
    let claim = (payment * total_shares) as int;
    let reserve = native_reserve as int;
    assert((cost / reserve) * reserve <= cost < (cost / reserve + 1) * reserve) by (nonlinear_arith)
        requires
            cost >= 0,
            reserve > 0,
    ;
    assert((claim / reserve) * reserve <= claim < (claim / reserve + 1) * reserve)
        by (nonlinear_arith)
        requires
            claim >= 0,
            reserve > 0,
    ;
}

} // verus!
