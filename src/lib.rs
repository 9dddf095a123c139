//! A key-gated drop: a funder escrows native value or fungible tokens under a
//! single-use public key, and whoever holds the private key claims it once.
//!
//! The library holds the registry of drops and every decision of the claim
//! workflow. Each entrypoint returns the remote calls to make as plain values;
//! the host runs them and hands their outcomes back to the resolution steps.

pub mod claim;
pub mod constants;
pub mod contract;
pub mod drop_types;
pub mod error;
pub mod ft;
pub mod laws;
pub mod registry;
pub mod token;

pub use claim::{AccountCreation, ClaimPlan};
pub use contract::{AccessKeyGrant, Contract};
pub use drop_types::{DropType, Dropper, FTDrop, Payout, PendingClaim, TokenDrop};
pub use error::DropError;
pub use ft::{FtSettlement, TokenReturn};
pub use registry::Registry;
pub use token::NativeRefund;
