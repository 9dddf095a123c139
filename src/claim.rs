//! The two claim paths: straight to an existing account, or through the
//! creation of a new account bound to the drop's key.
use vstd::prelude::*;

use crate::constants::CREATE_ACCOUNT_FEE;
use crate::contract::Contract;
use crate::drop_types::{DropType, Dropper, Payout, PendingClaim};
use crate::error::DropError;

verus! {

/// The calls that pay a claimed drop out, and the arguments of the step that
/// resolves them.
#[derive(Debug, Clone, PartialEq, Eq)]
pub struct ClaimPlan {
    pub payout: Payout,
    pub resolution: PendingClaim,
}

/// A `create_account` call on `top_level_account` for `new_account_id`, with
/// `new_public_key` as its full-access key and `deposit` attached.
#[derive(Debug, Clone, PartialEq, Eq)]
pub struct AccountCreation {
    pub top_level_account: String,
    pub new_account_id: String,
    pub new_public_key: String,
    pub deposit: u128,
}

/// Why a claim of the drop under `key` is refused, if it is.
pub open spec fn claim_refusal(drops: Map<Seq<char>, DropType>, key: Seq<char>) -> Option<
    DropError,
> {
    if !drops.contains_key(key) {
        Some(DropError::MissingDrop)
    } else if !drops[key].claimable() {
        Some(DropError::ZeroTokens)
    } else {
        None
    }
}

/// What a claim of the drop under `key` for `account_id` returns.
pub open spec fn claim_outcome(
    drops: Map<Seq<char>, DropType>,
    key: Seq<char>,
    account_id: String,
    created: bool,
) -> Result<ClaimPlan, DropError> {
    match claim_refusal(drops, key) {
        Some(e) => Err(e),
        None => Ok(
            ClaimPlan {
                payout: drops[key].payout_to(account_id),
                resolution: drops[key].pending(created),
            },
        ),
    }
}

/// The registry after a claim of the drop under `key`: without it, unless the
/// claim was refused.
pub open spec fn after_claim(drops: Map<Seq<char>, DropType>, key: Seq<char>) -> Map<
    Seq<char>,
    DropType,
> {
    if claim_refusal(drops, key) is None {
        drops.remove(key)
    } else {
        drops
    }
}

impl Contract {
    /// Claims the drop of the key `signer_pk` for the existing account
    /// `account_id`. The drop leaves the registry before any call is made.
    pub fn claim_for(&mut self, account_id: String, signer_pk: &String) -> (r: Result<
        ClaimPlan,
        DropError,
    >)
        requires
            old(self).wf(),
        ensures
            final(self).wf(),
            final(self).top_level_account == old(self).top_level_account,
            r == claim_outcome(old(self).drop_for_key@, signer_pk@, account_id, false),
            final(self).drop_for_key@ == after_claim(old(self).drop_for_key@, signer_pk@),
    {
        self.take_and_pay_out(account_id, signer_pk, false)
    }

    /// Starts a claim through a new account: checks that the key `signer_pk`
    /// has a drop and returns the account-creation call. The drop stays in
    /// the registry until that call has resolved.
    pub fn create_account_and_claim(&self, account_id: String, signer_pk: &String) -> (r: Result<
        AccountCreation,
        DropError,
    >)
        requires
            self.wf(),
        ensures
            match r {
                Ok(c) => self.drop_for_key@.contains_key(signer_pk@) && c == (AccountCreation {
                    top_level_account: self.top_level_account,
                    new_account_id: account_id,
                    new_public_key: *signer_pk,
                    deposit: CREATE_ACCOUNT_FEE,
                }),
                Err(e) => !self.drop_for_key@.contains_key(signer_pk@) && e
                    == DropError::MissingDrop,
            },
    {
        if self.drop_for_key.lookup(signer_pk).is_none() {
            return Err(DropError::MissingDrop);
        }
        Ok(
            AccountCreation {
                top_level_account: self.top_level_account.clone(),
                new_account_id: account_id,
                new_public_key: signer_pk.clone(),
                deposit: CREATE_ACCOUNT_FEE,
            },
        )
    }

    /// Continues a claim through a new account once its creation has
    /// resolved: `created` is what the creation reported, `None` where its
    /// result could not be read. A creation reported as failed aborts the
    /// claim and leaves the drop claimable; otherwise the drop is claimed for
    /// `account_id` as a created account.
    pub fn resolve_account_create(
        &mut self,
        account_id: String,
        created: Option<bool>,
        signer_pk: &String,
    ) -> (r: Result<ClaimPlan, DropError>)
        requires
            old(self).wf(),
        ensures
            final(self).wf(),
            final(self).top_level_account == old(self).top_level_account,
            created == Some(false) ==> r == Err::<ClaimPlan, DropError>(DropError::AccountNotCreated)
                && final(self).drop_for_key@ == old(self).drop_for_key@,
            created != Some(false) ==> r == claim_outcome(
                old(self).drop_for_key@,
                signer_pk@,
                account_id,
                true,
            ) && final(self).drop_for_key@ == after_claim(old(self).drop_for_key@, signer_pk@),
    {
        if created == Some(false) {
            return Err(DropError::AccountNotCreated);
        }
        self.take_and_pay_out(account_id, signer_pk, true)
    }

    /// Removes the drop of `key` and returns how to pay it out to `account_id`.
    fn take_and_pay_out(&mut self, account_id: String, key: &String, created: bool) -> (r: Result<
        ClaimPlan,
        DropError,
    >)
        requires
            old(self).wf(),
        ensures
            final(self).wf(),
            final(self).top_level_account == old(self).top_level_account,
            r == claim_outcome(old(self).drop_for_key@, key@, account_id, created),
            final(self).drop_for_key@ == after_claim(old(self).drop_for_key@, key@),
    {
        match self.drop_for_key.lookup(key) {
            None => {
                return Err(DropError::MissingDrop);
            },
            Some(d) => {
                if !d.is_claimable() {
                    return Err(DropError::ZeroTokens);
                }
            },
        }
        let drop = match self.drop_for_key.remove(key) {
            Ok(d) => d,
            Err(e) => {
                return Err(e);
            },
        };
        let payout = drop.promise_for_claiming(account_id);
        let resolution = drop.promise_to_resolve_claim(created);
        Ok(ClaimPlan { payout, resolution })
    }
}

impl DropType {
    /// Whether the drop can be paid out: a token drop must hold tokens.
    pub fn is_claimable(&self) -> (r: bool)
        ensures
            r == self.claimable(),
    {
        match self {
            DropType::NEAR(_) => true,
            DropType::FT(f) => f.tokens > 0,
        }
    }
}

} // verus!
