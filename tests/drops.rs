use near_drop::constants::{
    ACCESS_KEY_ALLOWANCE, ACCESS_KEY_STORAGE, CREATE_ACCOUNT_FEE, FT_OVERHEAD, FT_REGISTER,
    FT_STORAGE, NEAR_OVERHEAD, NEAR_STORAGE,
};
use near_drop::{
    AccountCreation, Contract, DropError, DropType, FTDrop, Payout, PendingClaim, Registry,
    TokenDrop, TokenReturn,
};

const KEY: &str = "ed25519:6E8sCci9badyRkXb3JoRpBj5p8C6Tw41ELDZoiihKEtp";
const OTHER_KEY: &str = "ed25519:DcA2MzgpJbrUATQLLceocVckhhAqrkingax4oJ9kZ847";

fn s(v: &str) -> String {
    v.to_string()
}

fn contract() -> Contract {
    Contract::new(s("testnet"))
}

fn near_drop_of(c: &mut Contract, tokens: u128) {
    c.create_near_drop(s(KEY), tokens, s("alice.near"), tokens + NEAR_OVERHEAD)
        .unwrap();
}

fn ft_drop_of(c: &mut Contract, tokens: u128) {
    c.create_ft_drop(s(KEY), 0, s("token.near"), s("alice.near"), FT_OVERHEAD)
        .unwrap();
    if tokens > 0 {
        assert_eq!(
            c.ft_on_transfer(s("alice.near"), tokens, s(KEY), s("token.near")),
            Ok(0)
        );
    }
}

#[test]
fn overhead_constants() {
    assert_eq!(NEAR_STORAGE, 2_560_000_000_000_000_000_000);
    assert_eq!(FT_STORAGE, 3_200_000_000_000_000_000_000);
    assert_eq!(NEAR_OVERHEAD, 25_400_000_000_000_000_000_000);
    assert_eq!(FT_OVERHEAD, 26_040_000_000_000_000_000_000);
}

#[test]
fn native_drop_claimed_to_existing_account() {
    let mut c = contract();
    let (grant, extra) = c
        .create_near_drop(s(KEY), 100, s("alice.near"), 100 + NEAR_OVERHEAD)
        .unwrap();
    assert_eq!(extra, 0);
    assert_eq!(grant.public_key, KEY);
    assert_eq!(grant.allowance, ACCESS_KEY_ALLOWANCE);

    let plan = c.claim_for(s("bob.near"), &s(KEY)).unwrap();
    assert_eq!(
        plan.payout,
        Payout::Transfer { receiver: s("bob.near"), amount: 100 }
    );
    assert_eq!(
        plan.resolution,
        PendingClaim::Near { created: false, funder: s("alice.near"), tokens: 100 }
    );
    assert_eq!(c.drop_for_key.len(), 0);

    let refund = Contract::resolve_near_claim(false, s("alice.near"), 100, true);
    assert_eq!(refund.receiver, "alice.near");
    // No account was created, so its fee goes back with the storage costs.
    assert_eq!(
        refund.amount,
        ACCESS_KEY_STORAGE + NEAR_STORAGE + CREATE_ACCOUNT_FEE
    );
    assert_eq!(refund.amount, 5_400_000_000_000_000_000_000);
}

#[test]
fn token_drop_created_account_transfer_fails() {
    let mut c = contract();
    let grant = c
        .create_ft_drop(s(KEY), 0, s("token.near"), s("alice.near"), FT_OVERHEAD)
        .unwrap();
    assert_eq!(grant.public_key, KEY);
    assert_eq!(
        c.ft_on_transfer(s("alice.near"), 50, s(KEY), s("token.near")),
        Ok(0)
    );

    let creation = c.create_account_and_claim(s("carol.testnet"), &s(KEY)).unwrap();
    assert_eq!(
        creation,
        AccountCreation {
            top_level_account: s("testnet"),
            new_account_id: s("carol.testnet"),
            new_public_key: s(KEY),
            deposit: CREATE_ACCOUNT_FEE,
        }
    );
    assert_eq!(c.drop_for_key.len(), 1);

    let plan = c
        .resolve_account_create(s("carol.testnet"), Some(true), &s(KEY))
        .unwrap();
    assert_eq!(
        plan.payout,
        Payout::FtTransfer {
            ft_contract: s("token.near"),
            receiver: s("carol.testnet"),
            storage_deposit: FT_REGISTER,
            transfer_deposit: 1,
            amount: 50,
        }
    );
    assert_eq!(
        plan.resolution,
        PendingClaim::Ft {
            created: true,
            funder: s("alice.near"),
            tokens: 50,
            ft_contract: s("token.near"),
        }
    );

    let settlement = Contract::resolve_ft_claim(true, s("alice.near"), 50, s("token.near"), false);
    assert_eq!(settlement.refund.receiver, "alice.near");
    assert_eq!(settlement.refund.amount, ACCESS_KEY_STORAGE + FT_STORAGE);
    assert_eq!(settlement.refund.amount, 4_200_000_000_000_000_000_000);
    assert_eq!(
        settlement.token_return,
        Some(TokenReturn {
            ft_contract: s("token.near"),
            receiver: s("alice.near"),
            amount: 50,
            deposit: 1,
        })
    );
}

#[test]
fn second_claim_finds_no_drop() {
    let mut c = contract();
    near_drop_of(&mut c, 100);
    assert!(c.claim_for(s("bob.near"), &s(KEY)).is_ok());
    assert_eq!(c.claim_for(s("bob.near"), &s(KEY)), Err(DropError::MissingDrop));
    assert_eq!(
        c.create_account_and_claim(s("carol.testnet"), &s(KEY)),
        Err(DropError::MissingDrop)
    );
    assert_eq!(
        c.resolve_account_create(s("carol.testnet"), Some(true), &s(KEY)),
        Err(DropError::MissingDrop)
    );
}

#[test]
fn claim_through_new_account_then_direct_claim_fails() {
    let mut c = contract();
    near_drop_of(&mut c, 7);
    assert!(c.resolve_account_create(s("carol.testnet"), None, &s(KEY)).is_ok());
    assert_eq!(c.claim_for(s("bob.near"), &s(KEY)), Err(DropError::MissingDrop));
}

#[test]
fn top_ups_commute() {
    let mut first = contract();
    ft_drop_of(&mut first, 0);
    first.ft_on_transfer(s("x"), 30, s(KEY), s("token.near")).unwrap();
    first.ft_on_transfer(s("x"), 12, s(KEY), s("token.near")).unwrap();

    let mut second = contract();
    ft_drop_of(&mut second, 0);
    second.ft_on_transfer(s("x"), 12, s(KEY), s("token.near")).unwrap();
    second.ft_on_transfer(s("x"), 30, s(KEY), s("token.near")).unwrap();

    let expected = DropType::FT(FTDrop {
        funder: s("alice.near"),
        tokens: 42,
        ft_contract: s("token.near"),
    });
    assert_eq!(first.drop_for_key.lookup(&s(KEY)), Some(&expected));
    assert_eq!(second.drop_for_key.lookup(&s(KEY)), Some(&expected));
}

#[test]
fn overpayment_is_refunded() {
    let mut c = contract();
    let (_, extra) = c
        .create_near_drop(s(KEY), 100, s("alice.near"), 100 + NEAR_OVERHEAD + 25)
        .unwrap();
    assert_eq!(extra, 25);
    assert_eq!(
        c.drop_for_key.lookup(&s(KEY)),
        Some(&DropType::NEAR(TokenDrop { funder: s("alice.near"), tokens: 100 }))
    );
}

#[test]
fn native_drop_refusals() {
    let mut c = contract();
    assert_eq!(
        c.create_near_drop(s(KEY), 0, s("alice.near"), NEAR_OVERHEAD),
        Err(DropError::ZeroTokens)
    );
    assert_eq!(
        c.create_near_drop(s(KEY), 100, s("alice.near"), 99 + NEAR_OVERHEAD),
        Err(DropError::InsufficientDeposit)
    );
    assert_eq!(
        c.create_near_drop(s(KEY), u128::MAX, s("alice.near"), u128::MAX),
        Err(DropError::InsufficientDeposit)
    );
    assert_eq!(c.drop_for_key.len(), 0);
    near_drop_of(&mut c, 1);
    assert_eq!(
        c.create_near_drop(s(KEY), 5, s("mallory.near"), 5 + NEAR_OVERHEAD),
        Err(DropError::DuplicateKey)
    );
    assert_eq!(
        c.drop_for_key.lookup(&s(KEY)),
        Some(&DropType::NEAR(TokenDrop { funder: s("alice.near"), tokens: 1 }))
    );
}

#[test]
fn largest_native_drop() {
    let mut c = contract();
    let tokens = u128::MAX - NEAR_OVERHEAD;
    let (_, extra) = c
        .create_near_drop(s(KEY), tokens, s("alice.near"), u128::MAX)
        .unwrap();
    assert_eq!(extra, 0);
    let refund = Contract::resolve_near_claim(true, s("alice.near"), tokens, false);
    assert_eq!(refund.amount, tokens + ACCESS_KEY_STORAGE + NEAR_STORAGE);
}

#[test]
fn token_drop_refusals() {
    let mut c = contract();
    assert_eq!(
        c.create_ft_drop(s(KEY), 0, s("token.near"), s("alice.near"), FT_OVERHEAD + 1),
        Err(DropError::WrongDeposit)
    );
    assert_eq!(
        c.create_ft_drop(s(KEY), 0, s("token.near"), s("alice.near"), FT_OVERHEAD - 1),
        Err(DropError::WrongDeposit)
    );
    ft_drop_of(&mut c, 0);
    assert_eq!(
        c.create_ft_drop(s(KEY), 0, s("token.near"), s("bob.near"), FT_OVERHEAD),
        Err(DropError::DuplicateKey)
    );
    assert_eq!(
        c.ft_on_transfer(s("x"), 5, s(OTHER_KEY), s("token.near")),
        Err(DropError::MissingDrop)
    );
    assert_eq!(
        c.ft_on_transfer(s("x"), 5, s(KEY), s("fake.near")),
        Err(DropError::WrongTokenContract)
    );
    c.ft_on_transfer(s("x"), 5, s(KEY), s("token.near")).unwrap();
    assert_eq!(
        c.ft_on_transfer(s("x"), u128::MAX, s(KEY), s("token.near")),
        Err(DropError::Overflow)
    );
    near_drop_of_other(&mut c);
    assert_eq!(
        c.ft_on_transfer(s("x"), 5, s(OTHER_KEY), s("token.near")),
        Err(DropError::NotFtDrop)
    );
}

fn near_drop_of_other(c: &mut Contract) {
    c.create_near_drop(s(OTHER_KEY), 3, s("alice.near"), 3 + NEAR_OVERHEAD)
        .unwrap();
}

#[test]
fn empty_token_drop_cannot_be_claimed() {
    let mut c = contract();
    ft_drop_of(&mut c, 0);
    assert_eq!(c.claim_for(s("bob.near"), &s(KEY)), Err(DropError::ZeroTokens));
    assert_eq!(c.drop_for_key.len(), 1);
    c.ft_on_transfer(s("x"), 1, s(KEY), s("token.near")).unwrap();
    assert!(c.claim_for(s("bob.near"), &s(KEY)).is_ok());
}

#[test]
fn failed_account_creation_keeps_drop() {
    let mut c = contract();
    near_drop_of(&mut c, 100);
    assert_eq!(
        c.resolve_account_create(s("carol.testnet"), Some(false), &s(KEY)),
        Err(DropError::AccountNotCreated)
    );
    assert_eq!(c.drop_for_key.len(), 1);
    let plan = c.claim_for(s("bob.near"), &s(KEY)).unwrap();
    assert_eq!(plan.payout, Payout::Transfer { receiver: s("bob.near"), amount: 100 });
}

#[test]
fn native_claim_failure_returns_principal() {
    let created = Contract::resolve_near_claim(true, s("alice.near"), 100, false);
    assert_eq!(created.amount, ACCESS_KEY_STORAGE + NEAR_STORAGE + 100);
    let direct = Contract::resolve_near_claim(false, s("alice.near"), 100, false);
    assert_eq!(
        direct.amount,
        ACCESS_KEY_STORAGE + NEAR_STORAGE + CREATE_ACCOUNT_FEE + 100
    );
    let paid = Contract::resolve_near_claim(true, s("alice.near"), 100, true);
    assert_eq!(paid.amount, ACCESS_KEY_STORAGE + NEAR_STORAGE);
}

#[test]
fn token_claim_success_returns_no_tokens() {
    let settlement = Contract::resolve_ft_claim(false, s("alice.near"), 50, s("token.near"), true);
    assert_eq!(
        settlement.refund.amount,
        ACCESS_KEY_STORAGE + FT_STORAGE + CREATE_ACCOUNT_FEE
    );
    assert_eq!(settlement.token_return, None);
}

#[test]
fn registry_operations() {
    let mut r = Registry::new();
    let d = DropType::NEAR(TokenDrop { funder: s("alice.near"), tokens: 9 });
    assert_eq!(r.update(&s(KEY), d.clone()), Err(DropError::MissingDrop));
    assert_eq!(r.remove(&s(KEY)), Err(DropError::MissingDrop));
    assert_eq!(r.create(s(KEY), d.clone()), Ok(()));
    assert_eq!(r.create(s(KEY), d.clone()), Err(DropError::DuplicateKey));
    assert_eq!(r.create(s(OTHER_KEY), d.clone()), Ok(()));
    assert_eq!(r.len(), 2);
    let e = DropType::NEAR(TokenDrop { funder: s("bob.near"), tokens: 4 });
    assert_eq!(r.update(&s(KEY), e.clone()), Ok(()));
    assert_eq!(r.lookup(&s(KEY)), Some(&e));
    assert_eq!(r.remove(&s(KEY)), Ok(e));
    assert_eq!(r.lookup(&s(KEY)), None);
    assert_eq!(r.lookup(&s(OTHER_KEY)), Some(&d));
    assert_eq!(r.len(), 1);
}
