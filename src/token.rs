//! Native-value drops: creation and the resolution of a claim.
use vstd::prelude::*;

use crate::constants::{ACCESS_KEY_STORAGE, CREATE_ACCOUNT_FEE, NEAR_OVERHEAD, NEAR_STORAGE};
use crate::contract::Contract;
use crate::drop_types::{DropType, TokenDrop};
use crate::error::DropError;

verus! {

/// A native transfer of `amount` back to `receiver`.
#[derive(Debug, Clone, PartialEq, Eq)]
pub struct NativeRefund {
    pub receiver: String,
    pub amount: u128,
}

/// What a native drop of `tokens` must be paid with, at least.
pub open spec fn near_required(tokens: u128) -> int {
    tokens + NEAR_OVERHEAD
}

/// Why a native drop of `tokens` paid with `attached` is refused, if it is.
pub open spec fn near_funding_refusal(tokens: u128, attached: u128) -> Option<DropError> {
    if tokens == 0 {
        Some(DropError::ZeroTokens)
    } else if attached < near_required(tokens) {
        Some(DropError::InsufficientDeposit)
    } else {
        None
    }
}

/// What goes back to the funder when a native claim resolves: the storage of
/// the key and of the record, the account-creation fee where no account was
/// created, and the principal where the payout failed.
pub open spec fn near_refund(created: bool, tokens: u128, succeeded: bool) -> int {
    ACCESS_KEY_STORAGE + NEAR_STORAGE + (if created {
        0int
    } else {
        CREATE_ACCOUNT_FEE as int
    }) + (if succeeded {
        0int
    } else {
        tokens as int
    })
}

/// Builds a native drop of `tokens` for `funder`, paid with `attached`.
/// Returns the drop and what was paid beyond its cost, to go back to the caller.
pub fn create_near_drop(funder: String, tokens: u128, attached: u128) -> (r: Result<
    (DropType, u128),
    DropError,
>)
    ensures
        match r {
            Ok((d, extra)) => near_funding_refusal(tokens, attached) is None && d == DropType::NEAR(
                TokenDrop { funder, tokens },
            ) && extra == attached - near_required(tokens),
            Err(e) => near_funding_refusal(tokens, attached) == Some(e),
        },
{
    if tokens < 1 {
        return Err(DropError::ZeroTokens);
    }
    if tokens > u128::MAX - NEAR_OVERHEAD {
        return Err(DropError::InsufficientDeposit);
    }
    let required = tokens + NEAR_OVERHEAD;
    if attached < required {
        return Err(DropError::InsufficientDeposit);
    }
    let extra = attached - required;
    Ok((DropType::NEAR(TokenDrop { funder, tokens }), extra))
}

impl Contract {
    /// Resolves a native claim once the payout transfer has run: refunds the
    /// funder the overhead that was not spent, and the principal on failure.
    pub fn resolve_near_claim(created: bool, funder: String, tokens: u128, succeeded: bool) -> (r:
        NativeRefund)
        requires
            near_refund(created, tokens, succeeded) <= u128::MAX,
        ensures
            r.receiver == funder,
            r.amount == near_refund(created, tokens, succeeded),
    {
        let mut to_refund: u128 = ACCESS_KEY_STORAGE + NEAR_STORAGE;
        if !created {
            to_refund = to_refund + CREATE_ACCOUNT_FEE;
        }
        if !succeeded {
            to_refund = to_refund + tokens;
        }
        NativeRefund { receiver: funder, amount: to_refund }
    }
}

} // verus!
