//! The transfer that the pool asks the paired-asset ledger to make after an
//! accepted deposit. The pool only states the request; its host sends it.

use vstd::prelude::*;
use crate::error::PoolError;

verus! {

/// Native amount attached to every transfer request to pay for the storage
/// that the ledger may need.
pub const STORAGE_DEPOSIT: u128 = 38600000000000000000000;

/// Gas that the pool keeps back from a call's budget to complete its own work.
pub const GAS_RESERVED: u64 = 10000000000000;

/// Entry point of the paired-asset ledger that the request is addressed to.
pub const TRANSFER_METHOD: &'static str = "transfer_from";

/// Account that receives the paired asset on the pool's behalf.
pub const TRANSFER_RECIPIENT: &'static str = "avrit.testnet";

/// A request to move units of the paired asset.
#[derive(Clone, Debug, PartialEq, Eq)]
pub struct TransferRequest {
    /// Account of the paired-asset ledger, which receives the request.
    pub ledger_account: String,
    /// Account that the units are taken from.
    pub source_account: String,
    /// Account that the units are moved to.
    pub destination_account: String,
    /// Units of the paired asset to move.
    pub amount: u128,
    /// Native amount attached for storage.
    pub deposit: u128,
    /// Gas that the request may use.
    pub gas: u64,
}

/// A transfer request with its account identifiers as character sequences.
pub struct TransferRequestView {
    pub ledger_account: Seq<char>,
    pub source_account: Seq<char>,
    pub destination_account: Seq<char>,
    pub amount: u128,
    pub deposit: u128,
    pub gas: u64,
}

impl View for TransferRequest {
    type V = TransferRequestView;

    open spec fn view(&self) -> TransferRequestView {
        TransferRequestView {
            ledger_account: self.ledger_account@,
            source_account: self.source_account@,
            destination_account: self.destination_account@,
            amount: self.amount,
            deposit: self.deposit,
            gas: self.gas,
        }
    }
}

/// The request that follows a deposit charged `amount` units: from the pool's
/// own account to the recipient, with the storage deposit attached and the
/// call's gas budget less what the pool keeps back. A budget below what the
/// pool keeps back leaves nothing to hand on, and there is no request.
pub open spec fn transfer_for(
    ledger_account: Seq<char>,
    pool_account: Seq<char>,
    amount: u128,
    prepaid_gas: u64,
) -> Result<TransferRequestView, PoolError> {
    if prepaid_gas < GAS_RESERVED {
        Err(PoolError::ArithmeticOverflow)
    } else {
        Ok(
            TransferRequestView {
                ledger_account,
                source_account: pool_account,
                destination_account: TRANSFER_RECIPIENT@,
                amount,
                deposit: STORAGE_DEPOSIT,
                gas: (prepaid_gas - GAS_RESERVED) as u64,
            },
        )
    }
}

impl TransferRequest {
    /// Builds the request that follows a deposit charged `amount` units.
    pub fn for_deposit(
        ledger_account: String,
        pool_account: String,
        amount: u128,
        prepaid_gas: u64,
    ) -> (outcome: Result<TransferRequest, PoolError>)
        ensures
            match outcome {
                Ok(request) => transfer_for(ledger_account@, pool_account@, amount, prepaid_gas)
                    == Ok::<TransferRequestView, PoolError>(request@),
                Err(e) => transfer_for(ledger_account@, pool_account@, amount, prepaid_gas)
                    == Err::<TransferRequestView, PoolError>(e),
            },
    {
        match prepaid_gas.checked_sub(GAS_RESERVED) {
            Some(gas) => Ok(
                TransferRequest {
                    ledger_account,
                    source_account: pool_account,
                    destination_account: TRANSFER_RECIPIENT.to_owned(),
                    amount,
                    deposit: STORAGE_DEPOSIT,
                    gas,
                },
            ),
            None => Err(PoolError::ArithmeticOverflow),
        }
    }
}

} // verus!
