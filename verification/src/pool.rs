//! The pool: its share supply, its paired-asset reserve, the ledger of
//! liquidity-provider shares, and the one operation that changes them.
//!
//! The pool is an ordinary owned value. Each operation takes what the host
//! read from its environment as arguments, runs to completion, and either
//! changes the pool and says which transfer to request, or changes nothing
//! and says why.

use vstd::prelude::*;
use crate::account_map::AccountMap;
use crate::context::{CallContext, CallContextView};
use crate::error::PoolError;
use crate::settlement::{settle_deposit, settlement_outcome, Settlement, SettlementView};
use crate::supply::{lemma_balance_within_sum, lemma_sum_empty, lemma_sum_insert, shares_sum};

verus! {

/// The pool as a mathematical value.
pub struct PoolView {
    /// Shares outstanding.
    pub total_shares: u128,
    /// Last known balance of the paired asset.
    pub paired_asset_reserve: u128,
    /// Shares held by each account that ever deposited.
    pub lp_shares: Map<Seq<char>, u128>,
    /// Status message of each account that ever set one.
    pub records: Map<Seq<char>, Seq<char>>,
    /// Account of the paired-asset ledger.
    pub paired_asset_ledger: Seq<char>,
}

impl PoolView {
    /// The share supply is the sum of the balances in the ledger.
    pub open spec fn conserved(self) -> bool {
        &&& self.lp_shares.dom().finite()
        &&& self.total_shares == shares_sum(self.lp_shares)
    }

    /// The ledger entry of `account`, if it has one.
    pub open spec fn held(self, account: Seq<char>) -> Option<u128> {
        if self.lp_shares.contains_key(account) {
            Some(self.lp_shares[account])
        } else {
            None
        }
    }

    /// How one call of `add_liquidity` on this pool is settled.
    pub open spec fn settle(self, min_liquidity: u128, max_tokens: u128, ctx: CallContextView)
        -> Result<SettlementView, PoolError> {
        settlement_outcome(
            self.total_shares,
            self.paired_asset_reserve,
            self.held(ctx.caller),
            self.paired_asset_ledger,
            min_liquidity,
            max_tokens,
            ctx,
        )
    }

    /// The pool with an accepted deposit recorded: the caller's balance and
    /// the share supply are those of the deposit, all else is as before.
    pub open spec fn record(self, caller: Seq<char>, settlement: SettlementView) -> PoolView {
        PoolView {
            total_shares: settlement.deposit.total_shares,
            lp_shares: self.lp_shares.insert(caller, settlement.deposit.caller_shares),
            ..self
        }
    }

    /// The pool after one call of `add_liquidity`: with the deposit recorded
    /// where the call is accepted, unchanged where it is rejected.
    pub open spec fn add_liquidity(
        self,
        min_liquidity: u128,
        max_tokens: u128,
        ctx: CallContextView,
    ) -> PoolView {
        match self.settle(min_liquidity, max_tokens, ctx) {
            Ok(settlement) => self.record(ctx.caller, settlement),
            Err(_) => self,
        }
    }
}

/// A call of `add_liquidity` keeps the share supply equal to the sum of the
/// balances in the ledger.
pub proof fn lemma_add_liquidity_conserves_supply(
    pool: PoolView,
    min_liquidity: u128,
    max_tokens: u128,
    ctx: CallContextView,
)
    requires
        pool.conserved(),
    ensures
        pool.add_liquidity(min_liquidity, max_tokens, ctx).conserved(),
{
    if let Ok(settlement) = pool.settle(min_liquidity, max_tokens, ctx) {
        lemma_sum_insert(pool.lp_shares, ctx.caller, settlement.deposit.caller_shares);
        if pool.lp_shares.contains_key(ctx.caller) {
            lemma_balance_within_sum(pool.lp_shares, ctx.caller);
        }
    }
}

/// A constant-product liquidity pool.
#[derive(Clone, Debug, PartialEq, Eq)]
pub struct Uniswap {
    records: AccountMap<String>,
    total_shares: u128,
    lp_shares: AccountMap<u128>,
    paired_asset_reserve: u128,
    paired_asset_ledger: String,
}

impl View for Uniswap {
    type V = PoolView;

    closed spec fn view(&self) -> PoolView {
        PoolView {
            total_shares: self.total_shares,
            paired_asset_reserve: self.paired_asset_reserve,
            lp_shares: self.lp_shares@,
            records: self.records@.map_values(|message: String| message@),
            paired_asset_ledger: self.paired_asset_ledger@,
        }
    }
}

impl Uniswap {
    /// The two account maps are soundly represented.
    pub closed spec fn inv(&self) -> bool {
        &&& self.records.wf()
        &&& self.lp_shares.wf()
    }

    /// A pool is well formed when its maps are sound and its share supply is
    /// the sum of its ledger.
    pub open spec fn wf(&self) -> bool {
        &&& self.inv()
        &&& self@.conserved()
    }

    /// Sets up the pool for the given paired-asset ledger: no shares, no
    /// reserve, no accounts. `state_exists` says whether the host already
    /// holds a pool; a pool is set up once, so a second attempt is rejected.
    pub fn new(paired_asset_ledger: String, state_exists: bool) -> (outcome: Result<
        Uniswap,
        PoolError,
    >)
        ensures
            match outcome {
                Ok(pool) => !state_exists && pool.wf() && pool@ == (PoolView {
                    total_shares: 0,
                    paired_asset_reserve: 0,
                    lp_shares: Map::empty(),
                    records: Map::empty(),
                    paired_asset_ledger: paired_asset_ledger@,
                }),
                Err(e) => state_exists && e == PoolError::AlreadyInitialized,
            },
    {
        if state_exists {
            return Err(PoolError::AlreadyInitialized);
        }
        let pool = Uniswap {
            records: AccountMap::new(),
            total_shares: 0,
            lp_shares: AccountMap::new(),
            paired_asset_reserve: 0,
            paired_asset_ledger,
        };
        proof {
            lemma_sum_empty();
            assert(pool@.records =~= Map::empty());
        }
        Ok(pool)
    }

    /// Deposits the payment of the call in progress and issues shares for it.
    ///
    /// Into an empty pool the deposit fixes the price: the caller is charged
    /// `max_tokens` and receives one share per native unit that the pool then
    /// holds. Into a live pool the deposit is priced by the ratio of the
    /// reserves, and is rejected where it would cost more than `max_tokens`
    /// or yield fewer than `min_liquidity` shares. An accepted call records
    /// the caller's new balance and the new supply and returns the
    /// settlement, which holds the shares issued and the transfer to request.
    /// A rejected call changes nothing.
    pub fn add_liquidity(
        &mut self,
        min_liquidity: u128,
        max_tokens: u128,
        ctx: &CallContext,
    ) -> (outcome: Result<Settlement, PoolError>)
        requires
            old(self).wf(),
        ensures
            final(self).wf(),
            final(self)@ == old(self)@.add_liquidity(min_liquidity, max_tokens, ctx@),
            match outcome {
                Ok(settlement) => old(self)@.settle(min_liquidity, max_tokens, ctx@) == Ok::<
                    SettlementView,
                    PoolError,
                >(settlement@),
                Err(e) => old(self)@.settle(min_liquidity, max_tokens, ctx@) == Err::<
                    SettlementView,
                    PoolError,
                >(e) && *final(self) == *old(self),
            },
    {
        let held: Option<u128> = match self.lp_shares.get(&ctx.caller) {
            Some(shares) => Some(*shares),
            None => None,
        };
        let settlement = match settle_deposit(
            self.total_shares,
            self.paired_asset_reserve,
            held,
            &self.paired_asset_ledger,
            min_liquidity,
            max_tokens,
            ctx,
        ) {
            Ok(settlement) => settlement,
            Err(e) => {
                return Err(e);
            },
        };
        proof {
            lemma_add_liquidity_conserves_supply(self@, min_liquidity, max_tokens, ctx@);
        }
        self.lp_shares.set(ctx.caller.clone(), settlement.deposit.caller_shares);
        self.total_shares = settlement.deposit.total_shares;
        proof {
            let after = old(self)@.add_liquidity(min_liquidity, max_tokens, ctx@);
            assert(self@.lp_shares =~= after.lp_shares);
            assert(self@ == after);
        }
        Ok(settlement)
    }

    /// Records `message` as the status of `signer`, in place of an earlier one.
    pub fn set_status(&mut self, signer: String, message: String)
        requires
            old(self).wf(),
        ensures
            final(self).wf(),
            final(self)@ == (PoolView {
                records: old(self)@.records.insert(signer@, message@),
                ..old(self)@
            }),
    {
        self.records.set(signer, message);
        proof {
            assert(self@.records =~= old(self)@.records.insert(signer@, message@));
        }
    }

    /// The status that `account_id` set last, or `None` where it set none.
    pub fn get_status(&self, account_id: String) -> (status: Option<String>)
        requires
            self.wf(),
        ensures
            match status {
                Some(message) => self@.records.contains_key(account_id@) && message@
                    == self@.records[account_id@],
                None => !self@.records.contains_key(account_id@),
            },
    {
        match self.records.get(&account_id) {
            Some(message) => Some(message.clone()),
            None => None,
        }
    }

    /// Shares outstanding.
    pub fn total_shares(&self) -> (shares: u128)
        ensures
            shares == self@.total_shares,
    {
        self.total_shares
    }

    /// Last known balance of the paired asset.
    pub fn paired_asset_reserve(&self) -> (reserve: u128)
        ensures
            reserve == self@.paired_asset_reserve,
    {
        self.paired_asset_reserve
    }

    /// Records the balance of the paired asset that its ledger reports for
    /// the pool. The pool never moves the paired asset itself, so its host
    /// keeps this figure current.
    pub fn set_paired_asset_reserve(&mut self, reserve: u128)
        requires
            old(self).wf(),
        ensures
            final(self).wf(),
            final(self)@ == (PoolView { paired_asset_reserve: reserve, ..old(self)@ }),
    {
        self.paired_asset_reserve = reserve;
    }

    /// The shares that `account` holds, or `None` where it never deposited.
    pub fn shares_of(&self, account: &String) -> (held: Option<u128>)
        requires
            self.wf(),
        ensures
            held == self@.held(account@),
    {
        match self.lp_shares.get(account) {
            Some(shares) => Some(*shares),
            None => None,
        }
    }

    /// Account of the paired-asset ledger.
    pub fn paired_asset_ledger(&self) -> (ledger: &String)
        ensures
            ledger@ == self@.paired_asset_ledger,
    {
        &self.paired_asset_ledger
    }
}

} // verus!
