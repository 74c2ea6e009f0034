//! Pricing and ledger core of a constant-product liquidity pool.
//!
//! The pool exchanges a native balance for units of a paired asset that an
//! external ledger tracks, and issues liquidity-provider shares for deposits.
//! Everything here is a pure in-process state transition: the host hands in
//! what it read from its environment, and gets back the shares minted together
//! with the transfer it has to request from the paired-asset ledger.

pub mod account_map;
pub mod context;
pub mod error;
pub mod pool;
pub mod pricing;
pub mod settlement;
pub mod supply;
pub mod theorems;
pub mod transfer;

pub use account_map::AccountMap;
pub use context::CallContext;
pub use error::{ErrorKind, PoolError};
pub use pool::Uniswap;
pub use pricing::{price_deposit, Deposit, DepositOrder};
pub use settlement::{settle_deposit, Settlement};
pub use transfer::{
    TransferRequest, GAS_RESERVED, STORAGE_DEPOSIT, TRANSFER_METHOD, TRANSFER_RECIPIENT,
};
