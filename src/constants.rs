//! Fees and storage costs, in yoctoNEAR.
use vstd::prelude::*;

verus! {

/// Bytes taken by a stored public key.
pub const PK_STORAGE: u128 = 32;

/// Bytes taken by a stored account id.
pub const ACC_STORAGE: u128 = 32 + 64;

/// Price of one byte of contract storage.
pub const STORAGE_PRICE_PER_BYTE: u128 = 10_000_000_000_000_000_000;

/// Storage staked for the access key that the contract adds for each drop.
pub const ACCESS_KEY_STORAGE: u128 = 1_000_000_000_000_000_000_000;

/// Allowance given to the access key to pay for the gas of a claim.
pub const ACCESS_KEY_ALLOWANCE: u128 = 20_000_000_000_000_000_000_000;

/// Cost of creating a new account with the longest possible name.
pub const CREATE_ACCOUNT_FEE: u128 = 1_840_000_000_000_000_000_000;

/// Storage cost of a native drop record.
pub const NEAR_STORAGE: u128 = (PK_STORAGE + ACC_STORAGE + 128) * STORAGE_PRICE_PER_BYTE;

/// Storage cost of a fungible-token drop record.
pub const FT_STORAGE: u128 = (ACC_STORAGE * 2 + 128) * STORAGE_PRICE_PER_BYTE;

/// Deposit attached to the `storage_deposit` call that registers a recipient
/// with a token contract.
pub const FT_REGISTER: u128 = 12_500_000_000_000_000_000_000;

/// Deposit attached to an `ft_transfer` call.
pub const FT_TRANSFER_DEPOSIT: u128 = 1;

/// What a native drop costs on top of its principal.
pub const NEAR_OVERHEAD: u128 = CREATE_ACCOUNT_FEE + ACCESS_KEY_ALLOWANCE + ACCESS_KEY_STORAGE
    + NEAR_STORAGE;

/// What a fungible-token drop costs; its principal arrives later as tokens.
pub const FT_OVERHEAD: u128 = CREATE_ACCOUNT_FEE + ACCESS_KEY_ALLOWANCE + ACCESS_KEY_STORAGE
    + FT_STORAGE;

} // verus!
