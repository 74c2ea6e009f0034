//! What the host knows of the call in progress.

use vstd::prelude::*;
use crate::error::PoolError;

verus! {

/// The facts of one call that the pool takes from its host.
#[derive(Clone, Debug, PartialEq, Eq)]
pub struct CallContext {
    /// Native amount attached to the call.
    pub payment: u128,
    /// Native balance of the pool before `payment` was credited to it.
    pub native_reserve: u128,
    /// Account that makes the call.
    pub caller: String,
    /// Account of the pool itself.
    pub pool_account: String,
    /// Gas budget of the call.
    pub prepaid_gas: u64,
}

/// A call context with its account identifiers as character sequences.
pub struct CallContextView {
    pub payment: u128,
    pub native_reserve: u128,
    pub caller: Seq<char>,
    pub pool_account: Seq<char>,
    pub prepaid_gas: u64,
}

impl View for CallContext {
    type V = CallContextView;

    open spec fn view(&self) -> CallContextView {
        CallContextView {
            payment: self.payment,
            native_reserve: self.native_reserve,
            caller: self.caller@,
            pool_account: self.pool_account@,
            prepaid_gas: self.prepaid_gas,
        }
    }
}

impl CallContext {
    /// Builds the context from what a host reports: the pool's native balance
    /// with the payment already credited, the payment, the two accounts and
    /// the gas budget. The reserve is the balance less the payment; a payment
    /// above the balance that it is part of is rejected.
    pub fn from_host(
        account_balance: u128,
        attached_deposit: u128,
        caller: String,
        pool_account: String,
        prepaid_gas: u64,
    ) -> (outcome: Result<CallContext, PoolError>)
        ensures
            match outcome {
                Ok(ctx) => attached_deposit <= account_balance && ctx@ == (CallContextView {
                    payment: attached_deposit,
                    native_reserve: (account_balance - attached_deposit) as u128,
                    caller: caller@,
                    pool_account: pool_account@,
                    prepaid_gas,
                }),
                Err(e) => attached_deposit > account_balance && e == PoolError::ArithmeticOverflow,
            },
    {
        match account_balance.checked_sub(attached_deposit) {
            Some(native_reserve) => Ok(
                CallContext {
                    payment: attached_deposit,
                    native_reserve,
                    caller,
                    pool_account,
                    prepaid_gas,
                },
            ),
            None => Err(PoolError::ArithmeticOverflow),
        }
    }
}

} // verus!
