//! Core of a collateralized-debt-position ("Trove") protocol: per-borrower
//! positions with collateral, debt and stake; role-gated lifecycle operations
//! including liquidation; an indexed owner-keyed store; and a surplus
//! collateral ledger with pool-level conservation.
//!
//! Host plumbing (chain storage, message encoding, the role-provider
//! contract, bank transfers) stays outside: the library works on plain
//! values and returns the outbound instructions it decides on as data.

pub mod accounting;
pub mod borrower_operation;
pub mod coll_surplus_pool;
pub mod error;
pub mod params;
pub mod response;
pub mod role_provider;
pub mod trove_manager;
pub mod troves;
