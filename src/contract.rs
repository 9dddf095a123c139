//! The contract's state and the funding entrypoints.
use vstd::prelude::*;

use crate::constants::ACCESS_KEY_ALLOWANCE;
use crate::drop_types::DropType;
use crate::error::DropError;
use crate::ft::create_ft_drop;
use crate::registry::Registry;
use crate::token::{create_near_drop, near_funding_refusal, near_required};

verus! {

/// The drop contract: the account under which new accounts are created, and
/// the registry of drops.
pub struct Contract {
    pub top_level_account: String,
    pub drop_for_key: Registry,
}

/// An access key to add to the contract's account, limited to the two claim
/// entrypoints, with `allowance` to pay for their gas.
#[derive(Debug, Clone, PartialEq, Eq)]
pub struct AccessKeyGrant {
    pub public_key: String,
    pub allowance: u128,
}

/// Why registering a drop under `key` is refused, once the drop itself was
/// accepted.
pub open spec fn store_refusal(drops: Map<Seq<char>, DropType>, key: Seq<char>) -> Option<
    DropError,
> {
    if drops.contains_key(key) {
        Some(DropError::DuplicateKey)
    } else {
        None
    }
}

impl Contract {
    pub open spec fn wf(&self) -> bool {
        self.drop_for_key.wf()
    }

    pub fn new(top_level_account: String) -> (r: Contract)
        ensures
            r.wf(),
            r.top_level_account == top_level_account,
            r.drop_for_key@ == Map::<Seq<char>, DropType>::empty(),
    {
        Contract { top_level_account, drop_for_key: Registry::new() }
    }

    /// Escrows a native drop of `tokens` from `funder`, who attached
    /// `attached`, under `public_key`. Returns the key to grant and what was
    /// paid beyond the drop's cost, which goes back to the funder.
    pub fn create_near_drop(
        &mut self,
        public_key: String,
        tokens: u128,
        funder: String,
        attached: u128,
    ) -> (r: Result<(AccessKeyGrant, u128), DropError>)
        requires
            old(self).wf(),
        ensures
            final(self).wf(),
            final(self).top_level_account == old(self).top_level_account,
            match r {
                Ok((grant, extra)) => near_funding_refusal(tokens, attached) is None
                    && store_refusal(old(self).drop_for_key@, public_key@) is None
                    && final(self).drop_for_key@ == old(self).drop_for_key@.insert(
                    public_key@,
                    DropType::NEAR(crate::drop_types::TokenDrop { funder, tokens }),
                ) && grant.public_key == public_key && grant.allowance == ACCESS_KEY_ALLOWANCE
                    && extra == attached - near_required(tokens),
                Err(e) => final(self).drop_for_key@ == old(self).drop_for_key@ && (
                near_funding_refusal(tokens, attached) == Some(e) || (near_funding_refusal(
                    tokens,
                    attached,
                ) is None && store_refusal(old(self).drop_for_key@, public_key@) == Some(e))),
            },
    {
        let (drop, extra) = match create_near_drop(funder, tokens, attached) {
            Ok(x) => x,
            Err(e) => {
                return Err(e);
            },
        };
        match self.store_drop_and_key(public_key, drop) {
            Ok(grant) => Ok((grant, extra)),
            Err(e) => Err(e),
        }
    }

    /// Registers an empty token drop of `ft_contract` from `funder` under
    /// `public_key`; it must be paid with exactly its overhead. The principal
    /// arrives later by top-up, so `tokens` is not escrowed here.
    pub fn create_ft_drop(
        &mut self,
        public_key: String,
        tokens: u128,
        ft_contract: String,
        funder: String,
        attached: u128,
    ) -> (r: Result<AccessKeyGrant, DropError>)
        requires
            old(self).wf(),
        ensures
            final(self).wf(),
            final(self).top_level_account == old(self).top_level_account,
            match r {
                Ok(grant) => attached == crate::constants::FT_OVERHEAD && store_refusal(
                    old(self).drop_for_key@,
                    public_key@,
                ) is None && final(self).drop_for_key@ == old(self).drop_for_key@.insert(
                    public_key@,
                    DropType::FT(crate::drop_types::FTDrop { funder, tokens: 0, ft_contract }),
                ) && grant.public_key == public_key && grant.allowance == ACCESS_KEY_ALLOWANCE,
                Err(e) => final(self).drop_for_key@ == old(self).drop_for_key@ && (if attached
                    != crate::constants::FT_OVERHEAD {
                    e == DropError::WrongDeposit
                } else {
                    store_refusal(old(self).drop_for_key@, public_key@) == Some(e)
                }),
            },
    {
        let drop = match create_ft_drop(funder, ft_contract, attached) {
            Ok(d) => d,
            Err(e) => {
                return Err(e);
            },
        };
        self.store_drop_and_key(public_key, drop)
    }

    /// Registers `drop` under `public_key` and returns the access key to grant.
    fn store_drop_and_key(&mut self, public_key: String, drop: DropType) -> (r: Result<
        AccessKeyGrant,
        DropError,
    >)
        requires
            old(self).wf(),
        ensures
            final(self).wf(),
            final(self).top_level_account == old(self).top_level_account,
            match r {
                Ok(grant) => store_refusal(old(self).drop_for_key@, public_key@) is None
                    && final(self).drop_for_key@ == old(self).drop_for_key@.insert(
                    public_key@,
                    drop,
                ) && grant.public_key == public_key && grant.allowance == ACCESS_KEY_ALLOWANCE,
                Err(e) => store_refusal(old(self).drop_for_key@, public_key@) == Some(e)
                    && final(self).drop_for_key@ == old(self).drop_for_key@,
            },
    {
        let granted = public_key.clone();
        match self.drop_for_key.create(public_key, drop) {
            Ok(()) => Ok(AccessKeyGrant { public_key: granted, allowance: ACCESS_KEY_ALLOWANCE }),
            Err(e) => Err(e),
        }
    }
}

} // verus!
