//! Properties of the drop workflow that span several calls.
use vstd::prelude::*;

use crate::claim::{after_claim, claim_outcome};
use crate::constants::{ACCESS_KEY_ALLOWANCE, CREATE_ACCOUNT_FEE, FT_OVERHEAD, NEAR_OVERHEAD};
use crate::drop_types::{DropType, Dropper, FTDrop, Payout, PendingClaim, TokenDrop};
use crate::error::DropError;
use crate::ft::{ft_refund, top_up_refusal, topped_up};
use crate::token::{near_funding_refusal, near_refund};

verus! {

/// The overhead that a claim spends rather than returns: the key's gas
/// allowance, and the account-creation fee where an account was created.
pub open spec fn consumed_overhead(created: bool) -> int {
    ACCESS_KEY_ALLOWANCE + (if created {
        CREATE_ACCOUNT_FEE as int
    } else {
        0int
    })
}

/// The amount that a payout hands to its recipient.
pub open spec fn payout_amount(p: Payout) -> u128 {
    match p {
        Payout::Transfer { amount, .. } => amount,
        Payout::FtTransfer { amount, .. } => amount,
    }
}

/// The principal that a resolution step carries.
pub open spec fn pending_tokens(p: PendingClaim) -> u128 {
    match p {
        PendingClaim::Near { tokens, .. } => tokens,
        PendingClaim::Ft { tokens, .. } => tokens,
    }
}

/// No double claim: once a claim of `key` went through, by either path, a
/// second claim of `key`, by either path, is refused as a missing drop and
/// leaves the registry as it is, so nothing is paid twice.
pub proof fn lemma_no_double_claim(
    drops: Map<Seq<char>, DropType>,
    key: Seq<char>,
    first_account: String,
    first_created: bool,
    second_account: String,
    second_created: bool,
)
    requires
        claim_outcome(drops, key, first_account, first_created) is Ok,
    ensures
        !after_claim(drops, key).contains_key(key),
        claim_outcome(after_claim(drops, key), key, second_account, second_created) == Err::<
            crate::claim::ClaimPlan,
            DropError,
        >(DropError::MissingDrop),
        after_claim(after_claim(drops, key), key) == after_claim(drops, key),
{
}

/// Conservation for a native drop: what the recipient is paid, what the
/// funder gets back and the overhead that the claim spends add up to all that
/// the drop escrowed, whether the payout succeeds or fails.
pub proof fn lemma_near_conservation(
    funder: String,
    tokens: u128,
    attached: u128,
    account_id: String,
    created: bool,
    succeeded: bool,
)
    requires
        near_funding_refusal(tokens, attached) is None,
    ensures
        ({
            let d = DropType::NEAR(TokenDrop { funder, tokens });
            let paid: int = if succeeded {
                payout_amount(d.payout_to(account_id)) as int
            } else {
                0
            };
            let pending_tokens = pending_tokens(d.pending(created));
            &&& near_refund(created, pending_tokens, succeeded) <= u128::MAX
            &&& paid + near_refund(created, pending_tokens, succeeded) + consumed_overhead(created)
                == tokens + NEAR_OVERHEAD
        }),
{
}

/// Conservation for a token drop: the tokens go either to the recipient or
/// back to the funder, and the native overhead is either returned to the
/// funder or spent by the claim.
pub proof fn lemma_ft_conservation(
    funder: String,
    tokens: u128,
    ft_contract: String,
    account_id: String,
    created: bool,
    succeeded: bool,
)
    ensures
        ({
            let d = DropType::FT(FTDrop { funder, tokens, ft_contract });
            let paid: int = if succeeded {
                payout_amount(d.payout_to(account_id)) as int
            } else {
                0
            };
            let returned: int = if succeeded {
                0
            } else {
                pending_tokens(d.pending(created)) as int
            };
            &&& paid + returned == tokens
            &&& ft_refund(created) + consumed_overhead(created) == FT_OVERHEAD
        }),
{
}

/// Top-ups commute: two accepted top-ups of `a1` and `a2` from the drop's
/// token contract are both accepted in either order, and leave the same
/// registry, with `a1 + a2` more tokens in the drop.
pub proof fn lemma_top_up_order(
    drops: Map<Seq<char>, DropType>,
    key: Seq<char>,
    caller: Seq<char>,
    a1: u128,
    a2: u128,
)
    requires
        drops.contains_key(key),
        drops[key] is FT,
        drops[key]->FT_0.ft_contract@ == caller,
        drops[key]->FT_0.tokens + a1 + a2 <= u128::MAX,
    ensures
        ({
            let m1 = drops.insert(key, topped_up(drops[key], a1));
            let m2 = drops.insert(key, topped_up(drops[key], a2));
            let m12 = m1.insert(key, topped_up(m1[key], a2));
            let m21 = m2.insert(key, topped_up(m2[key], a1));
            &&& top_up_refusal(drops, key, a1, caller) is None
            &&& top_up_refusal(m1, key, a2, caller) is None
            &&& top_up_refusal(drops, key, a2, caller) is None
            &&& top_up_refusal(m2, key, a1, caller) is None
            &&& m12 == m21
            &&& m12[key]->FT_0.tokens == drops[key]->FT_0.tokens + a1 + a2
        }),
{
    let m1 = drops.insert(key, topped_up(drops[key], a1));
    let m2 = drops.insert(key, topped_up(drops[key], a2));
    let m12 = m1.insert(key, topped_up(m1[key], a2));
    let m21 = m2.insert(key, topped_up(m2[key], a1));
    assert(m12 =~= m21);
}

} // verus!
