//! The two kinds of drop and what each asks of the host when it is claimed.
use vstd::prelude::*;

use crate::constants::{FT_REGISTER, FT_TRANSFER_DEPOSIT};

verus! {

/// Native value escrowed for the holder of a key.
#[derive(Debug, Clone, PartialEq, Eq)]
pub struct TokenDrop {
    pub funder: String,
    pub tokens: u128,
}

/// Fungible tokens of `ft_contract` escrowed for the holder of a key.
#[derive(Debug, Clone, PartialEq, Eq)]
pub struct FTDrop {
    pub funder: String,
    pub tokens: u128,
    pub ft_contract: String,
}

/// A drop record, as the registry stores it.
#[derive(Debug, Clone, PartialEq, Eq)]
pub enum DropType {
    NEAR(TokenDrop),
    FT(FTDrop),
}

/// The remote calls that hand a drop's principal to its recipient.
#[derive(Debug, Clone, PartialEq, Eq)]
pub enum Payout {
    /// Send `amount` of native value to `receiver`.
    Transfer { receiver: String, amount: u128 },
    /// On `ft_contract`, call `storage_deposit` for `receiver` with
    /// `storage_deposit` attached, then `ft_transfer` of `amount` to `receiver`
    /// with `transfer_deposit` attached.
    FtTransfer {
        ft_contract: String,
        receiver: String,
        storage_deposit: u128,
        transfer_deposit: u128,
        amount: u128,
    },
}

/// What the resolution step of a claim needs once the drop record is gone.
#[derive(Debug, Clone, PartialEq, Eq)]
pub enum PendingClaim {
    Near { created: bool, funder: String, tokens: u128 },
    Ft { created: bool, funder: String, tokens: u128, ft_contract: String },
}

/// How a kind of drop is paid out and resolved.
pub trait Dropper {
    /// The drop can be paid out.
    spec fn claimable(&self) -> bool;

    /// The payout calls for a claim to `account_id`.
    spec fn payout_to(&self, account_id: String) -> Payout;

    /// The resolution step's arguments; `created` tells whether the claim
    /// created the recipient's account.
    spec fn pending(&self, created: bool) -> PendingClaim;

    fn promise_for_claiming(&self, account_id: String) -> (r: Payout)
        requires
            self.claimable(),
        ensures
            r == self.payout_to(account_id),
    ;

    fn promise_to_resolve_claim(&self, created: bool) -> (r: PendingClaim)
        ensures
            r == self.pending(created),
    ;
}

impl Dropper for TokenDrop {
    open spec fn claimable(&self) -> bool {
        true
    }

    open spec fn payout_to(&self, account_id: String) -> Payout {
        Payout::Transfer { receiver: account_id, amount: self.tokens }
    }

    open spec fn pending(&self, created: bool) -> PendingClaim {
        PendingClaim::Near { created, funder: self.funder, tokens: self.tokens }
    }

    fn promise_for_claiming(&self, account_id: String) -> (r: Payout) {
        Payout::Transfer { receiver: account_id, amount: self.tokens }
    }

    fn promise_to_resolve_claim(&self, created: bool) -> (r: PendingClaim) {
        PendingClaim::Near { created, funder: self.funder.clone(), tokens: self.tokens }
    }
}

impl Dropper for FTDrop {
    open spec fn claimable(&self) -> bool {
        self.tokens > 0
    }

    open spec fn payout_to(&self, account_id: String) -> Payout {
        Payout::FtTransfer {
            ft_contract: self.ft_contract,
            receiver: account_id,
            storage_deposit: FT_REGISTER,
            transfer_deposit: FT_TRANSFER_DEPOSIT,
            amount: self.tokens,
        }
    }

    open spec fn pending(&self, created: bool) -> PendingClaim {
        PendingClaim::Ft {
            created,
            funder: self.funder,
            tokens: self.tokens,
            ft_contract: self.ft_contract,
        }
    }

    fn promise_for_claiming(&self, account_id: String) -> (r: Payout) {
        Payout::FtTransfer {
            ft_contract: self.ft_contract.clone(),
            receiver: account_id,
            storage_deposit: FT_REGISTER,
            transfer_deposit: FT_TRANSFER_DEPOSIT,
            amount: self.tokens,
        }
    }

    fn promise_to_resolve_claim(&self, created: bool) -> (r: PendingClaim) {
        PendingClaim::Ft {
            created,
            funder: self.funder.clone(),
            tokens: self.tokens,
            ft_contract: self.ft_contract.clone(),
        }
    }
}

impl Dropper for DropType {
    open spec fn claimable(&self) -> bool {
        match self {
            DropType::NEAR(d) => d.claimable(),
            DropType::FT(d) => d.claimable(),
        }
    }

    open spec fn payout_to(&self, account_id: String) -> Payout {
        match self {
            DropType::NEAR(d) => d.payout_to(account_id),
            DropType::FT(d) => d.payout_to(account_id),
        }
    }

    open spec fn pending(&self, created: bool) -> PendingClaim {
        match self {
            DropType::NEAR(d) => d.pending(created),
            DropType::FT(d) => d.pending(created),
        }
    }

    fn promise_for_claiming(&self, account_id: String) -> (r: Payout) {
        match self {
            DropType::NEAR(d) => d.promise_for_claiming(account_id),
            DropType::FT(d) => d.promise_for_claiming(account_id),
        }
    }

    fn promise_to_resolve_claim(&self, created: bool) -> (r: PendingClaim) {
        match self {
            DropType::NEAR(d) => d.promise_to_resolve_claim(created),
            DropType::FT(d) => d.promise_to_resolve_claim(created),
        }
    }
}

} // verus!
