//! Coordinator logic for Soroban contracts that compose a lending pool, a swap
//! router and a deposit vault into one atomically signed action.
//!
//! The flash-loan coordinator arms a request in temporary storage, asks the
//! pool for the loan, is called back by the pool, runs the caller's batch of
//! invocations, and releases value only after repayment and profit have been
//! checked. Every decision is a verified function over plain values; every
//! call into the host stands in [`host`], where its contract is stated and
//! believed rather than proved.
//!
//! The functions that work on the running contract's storage, address or
//! authorizations require that a contract is running, and every call into
//! another contract is made only after its target has been found to be a
//! contract. With that the library does not panic. What remains is the
//! host's own end of an invocation, as on an exhausted budget: nothing the
//! library did persists in that case.

pub mod arbitrage;
pub mod calls;
pub mod error;
pub mod executor;
pub mod host;
pub mod pool;
pub mod proxy;
pub mod request;
pub mod validation;

pub use crate::arbitrage::{BalanceSnapshot, PwndArbitrage};
pub use crate::error::SoroswapError;
pub use crate::pool::{FlashLoan, Request, RequestType, SoroswapRouter};
pub use crate::proxy::{DeFindexSimple, SoroswapAuth, SoroswapSimple};
pub use crate::request::{FlashLoanRequest, FlashLoanRequestStore};
pub use crate::validation::check_nonnegative_amount;
