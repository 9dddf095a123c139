//! Fungible-token drops: creation, top-ups from the token contract, and the
//! resolution of a claim.
use vstd::prelude::*;

use crate::constants::{
    ACCESS_KEY_STORAGE, CREATE_ACCOUNT_FEE, FT_OVERHEAD, FT_STORAGE, FT_TRANSFER_DEPOSIT,
};
use crate::contract::Contract;
use crate::drop_types::{DropType, FTDrop};
use crate::error::DropError;
use crate::token::NativeRefund;

verus! {

/// An `ft_transfer` of `amount` on `ft_contract` to `receiver`, with `deposit`
/// attached.
#[derive(Debug, Clone, PartialEq, Eq)]
pub struct TokenReturn {
    pub ft_contract: String,
    pub receiver: String,
    pub amount: u128,
    pub deposit: u128,
}

/// What the resolution of a token claim sends back to the funder.
#[derive(Debug, Clone, PartialEq, Eq)]
pub struct FtSettlement {
    pub refund: NativeRefund,
    pub token_return: Option<TokenReturn>,
}

/// The drop after a top-up of `amount` tokens.
pub open spec fn topped_up(d: DropType, amount: u128) -> DropType {
    match d {
        DropType::FT(f) => DropType::FT(
            FTDrop { funder: f.funder, tokens: (f.tokens + amount) as u128, ft_contract: f.ft_contract },
        ),
        DropType::NEAR(_) => d,
    }
}

/// Why a top-up of `amount` for `key`, sent by `caller`, is refused, if it is.
pub open spec fn top_up_refusal(
    drops: Map<Seq<char>, DropType>,
    key: Seq<char>,
    amount: u128,
    caller: Seq<char>,
) -> Option<DropError> {
    if !drops.contains_key(key) {
        Some(DropError::MissingDrop)
    } else {
        match drops[key] {
            DropType::NEAR(_) => Some(DropError::NotFtDrop),
            DropType::FT(f) => if f.ft_contract@ != caller {
                Some(DropError::WrongTokenContract)
            } else if f.tokens + amount > u128::MAX {
                Some(DropError::Overflow)
            } else {
                None
            },
        }
    }
}

/// What goes back to the funder in native value when a token claim resolves:
/// the storage of the key and of the record, and the account-creation fee
/// where no account was created.
pub open spec fn ft_refund(created: bool) -> int {
    ACCESS_KEY_STORAGE + FT_STORAGE + (if created {
        0int
    } else {
        CREATE_ACCOUNT_FEE as int
    })
}

/// Builds an empty token drop of `ft_contract` for `funder`; it must be paid
/// with exactly its overhead, the tokens arriving later by top-up.
pub fn create_ft_drop(funder: String, ft_contract: String, attached: u128) -> (r: Result<
    DropType,
    DropError,
>)
    ensures
        match r {
            Ok(d) => attached == FT_OVERHEAD && d == DropType::FT(
                FTDrop { funder, tokens: 0, ft_contract },
            ),
            Err(e) => attached != FT_OVERHEAD && e == DropError::WrongDeposit,
        },
{
    if attached != FT_OVERHEAD {
        return Err(DropError::WrongDeposit);
    }
    Ok(DropType::FT(FTDrop { funder, ft_contract, tokens: 0 }))
}

impl Contract {
    /// Tops up the token drop under `msg` by `amount`, as told by the token
    /// contract `predecessor` that received the tokens from `sender_id`.
    /// Returns the number of tokens handed back to the sender: none.
    pub fn ft_on_transfer(
        &mut self,
        sender_id: String,
        amount: u128,
        msg: String,
        predecessor: String,
    ) -> (r: Result<u128, DropError>)
        requires
            old(self).wf(),
        ensures
            final(self).wf(),
            final(self).top_level_account == old(self).top_level_account,
            match r {
                Ok(v) => v == 0 && top_up_refusal(
                    old(self).drop_for_key@,
                    msg@,
                    amount,
                    predecessor@,
                ) is None && final(self).drop_for_key@ == old(self).drop_for_key@.insert(
                    msg@,
                    topped_up(old(self).drop_for_key@[msg@], amount),
                ),
                Err(e) => top_up_refusal(old(self).drop_for_key@, msg@, amount, predecessor@)
                    == Some(e) && final(self).drop_for_key@ == old(self).drop_for_key@,
            },
    {
        let updated = match self.drop_for_key.lookup(&msg) {
            None => {
                return Err(DropError::MissingDrop);
            },
            Some(DropType::NEAR(_)) => {
                return Err(DropError::NotFtDrop);
            },
            Some(DropType::FT(f)) => {
                if f.ft_contract != predecessor {
                    return Err(DropError::WrongTokenContract);
                }
                if f.tokens > u128::MAX - amount {
                    return Err(DropError::Overflow);
                }
                DropType::FT(
                    FTDrop {
                        funder: f.funder.clone(),
                        tokens: f.tokens + amount,
                        ft_contract: f.ft_contract.clone(),
                    },
                )
            },
        };
        match self.drop_for_key.update(&msg, updated) {
            Ok(()) => Ok(0),
            Err(e) => Err(e),
        }
    }

    /// Resolves a token claim once the payout calls have run: refunds the
    /// funder the native overhead that was not spent and, where the payout
    /// failed, sends the tokens back to the funder.
    pub fn resolve_ft_claim(
        created: bool,
        funder: String,
        tokens: u128,
        ft_contract: String,
        succeeded: bool,
    ) -> (r: FtSettlement)
        ensures
            r.refund.receiver == funder,
            r.refund.amount == ft_refund(created),
            r.token_return == (if succeeded {
                None
            } else {
                Some(
                    TokenReturn {
                        ft_contract,
                        receiver: funder,
                        amount: tokens,
                        deposit: FT_TRANSFER_DEPOSIT,
                    },
                )
            }),
    {
        let mut to_refund: u128 = ACCESS_KEY_STORAGE + FT_STORAGE;
        if !created {
            to_refund = to_refund + CREATE_ACCOUNT_FEE;
        }
        let token_return = if succeeded {
            None
        } else {
            Some(
                TokenReturn {
                    ft_contract,
                    receiver: funder.clone(),
                    amount: tokens,
                    deposit: FT_TRANSFER_DEPOSIT,
                },
            )
        };
        FtSettlement { refund: NativeRefund { receiver: funder, amount: to_refund }, token_return }
    }
}

} // verus!
