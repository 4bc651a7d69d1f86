use escrow::{
    make_offer, pull_tokens_from_vault, save_offer, send_offered_tokens_to_vault,
    send_tokens_to_maker, take_offer, Escrow, EscrowError, Ledger, MakeOffer, Offer,
    OfferAddress, TakeOffer, TokenAccountRef,
};

const MAKER: u64 = 1;
const TAKER: u64 = 2;
const OTHER: u64 = 3;
const ASSET_A: u64 = 10;
const ASSET_B: u64 = 20;
const ASSET_C: u64 = 30;

fn acct(owner: u64, mint: u64) -> TokenAccountRef {
    TokenAccountRef { owner, mint }
}

/// An escrow over a ledger with the three assets and the given accounts.
fn escrow_with(accounts: &[(u64, u64, u64)]) -> Escrow {
    let mut ledger = Ledger::new();
    ledger.add_asset(ASSET_A, 6);
    ledger.add_asset(ASSET_B, 9);
    ledger.add_asset(ASSET_C, 0);
    for &(owner, mint, amount) in accounts {
        ledger.open_account(owner, mint).unwrap();
        ledger.credit(owner, mint, amount).unwrap();
    }
    Escrow::new(ledger)
}

/// An escrow where the maker holds `a` of asset A and the taker `b` of asset B.
fn setup(a: u64, b: u64) -> Escrow {
    escrow_with(&[(MAKER, ASSET_A, a), (TAKER, ASSET_B, b)])
}

fn make_ctx() -> MakeOffer {
    MakeOffer {
        maker: MAKER,
        token_mint_a: ASSET_A,
        token_mint_b: ASSET_B,
        maker_token_account_a: acct(MAKER, ASSET_A),
    }
}

fn take_ctx(id: u64) -> TakeOffer {
    TakeOffer {
        taker: TAKER,
        maker: MAKER,
        token_mint_a: ASSET_A,
        token_mint_b: ASSET_B,
        taker_token_a_account: acct(TAKER, ASSET_A),
        taker_token_b_account: acct(TAKER, ASSET_B),
        maker_token_b_account: acct(MAKER, ASSET_B),
        offer: OfferAddress { maker: MAKER, id },
    }
}

fn bal(e: &Escrow, owner: u64, mint: u64) -> Option<u64> {
    e.ledger().balance(owner, mint)
}

#[test]
fn make_then_take_then_take_again() {
    let mut e = setup(100, 50);
    assert_eq!(make_offer(&mut e, &make_ctx(), 1, 100, 50), Ok(()));
    assert_eq!(e.vault_balance(MAKER, 1), Some(100));
    assert_eq!(
        e.offer(MAKER, 1),
        Some(Offer { id: 1, maker: MAKER, token_mint_a: ASSET_A, token_mint_b: ASSET_B, token_b_wanted: 50 })
    );
    assert_eq!(bal(&e, MAKER, ASSET_A), Some(0));

    assert_eq!(take_offer(&mut e, &take_ctx(1)), Ok(()));
    assert_eq!(bal(&e, MAKER, ASSET_B), Some(50));
    assert_eq!(bal(&e, TAKER, ASSET_A), Some(100));
    assert_eq!(bal(&e, TAKER, ASSET_B), Some(0));
    assert_eq!(e.vault_balance(MAKER, 1), None);
    assert_eq!(e.offer(MAKER, 1), None);

    assert_eq!(take_offer(&mut e, &take_ctx(1)), Err(EscrowError::NotFound));
}

#[test]
fn duplicate_make_offer_collides() {
    let mut e = setup(100, 0);
    assert_eq!(make_offer(&mut e, &make_ctx(), 1, 40, 50), Ok(()));
    assert_eq!(make_offer(&mut e, &make_ctx(), 1, 10, 7), Err(EscrowError::AddressCollision));
    assert_eq!(bal(&e, MAKER, ASSET_A), Some(60));
    assert_eq!(e.vault_balance(MAKER, 1), Some(40));
    assert_eq!(e.offer(MAKER, 1).unwrap().token_b_wanted, 50);
    assert_eq!(make_offer(&mut e, &make_ctx(), 2, 10, 7), Ok(()));
    assert_eq!(bal(&e, MAKER, ASSET_A), Some(50));
}

#[test]
fn make_offer_insufficient_funds_changes_nothing() {
    let mut e = setup(99, 0);
    assert_eq!(make_offer(&mut e, &make_ctx(), 1, 100, 50), Err(EscrowError::InsufficientFunds));
    assert_eq!(bal(&e, MAKER, ASSET_A), Some(99));
    assert_eq!(e.offer(MAKER, 1), None);
    assert_eq!(e.vault_balance(MAKER, 1), None);
}

#[test]
fn make_offer_without_account_is_invalid() {
    let mut e = setup(100, 0);
    let mut ctx = make_ctx();
    ctx.maker = OTHER;
    ctx.maker_token_account_a = acct(OTHER, ASSET_A);
    assert_eq!(make_offer(&mut e, &ctx, 1, 1, 1), Err(EscrowError::InvalidAccount));
    let mut ctx = make_ctx();
    ctx.maker_token_account_a = acct(TAKER, ASSET_B);
    assert_eq!(make_offer(&mut e, &ctx, 1, 1, 1), Err(EscrowError::InvalidAccount));
}

#[test]
fn make_offer_unknown_asset_b_rolls_back_deposit() {
    let mut e = setup(100, 0);
    let mut ctx = make_ctx();
    ctx.token_mint_b = 99;
    assert_eq!(make_offer(&mut e, &ctx, 1, 30, 1), Err(EscrowError::AssetMismatch));
    assert_eq!(bal(&e, MAKER, ASSET_A), Some(100));
    assert_eq!(e.vault_balance(MAKER, 1), None);
    assert_eq!(e.offer(MAKER, 1), None);
}

#[test]
fn take_offer_with_wrong_maker_is_mismatch() {
    let mut e = setup(100, 50);
    make_offer(&mut e, &make_ctx(), 1, 100, 50).unwrap();
    let mut ctx = take_ctx(1);
    ctx.maker_token_b_account = acct(OTHER, ASSET_B);
    assert_eq!(take_offer(&mut e, &ctx), Err(EscrowError::AccountMismatch));
    let mut ctx = take_ctx(1);
    ctx.token_mint_b = ASSET_C;
    ctx.taker_token_b_account = acct(TAKER, ASSET_C);
    ctx.maker_token_b_account = acct(MAKER, ASSET_C);
    assert_eq!(take_offer(&mut e, &ctx), Err(EscrowError::AccountMismatch));
    let mut ctx = take_ctx(1);
    ctx.maker = OTHER;
    assert_eq!(take_offer(&mut e, &ctx), Err(EscrowError::AccountMismatch));
    assert_eq!(e.vault_balance(MAKER, 1), Some(100));
    assert_eq!(bal(&e, TAKER, ASSET_B), Some(50));
}

#[test]
fn take_offer_never_made_is_not_found() {
    let mut e = setup(100, 50);
    assert_eq!(take_offer(&mut e, &take_ctx(7)), Err(EscrowError::NotFound));
}

#[test]
fn take_offer_insufficient_funds_changes_nothing() {
    let mut e = setup(100, 49);
    make_offer(&mut e, &make_ctx(), 1, 100, 50).unwrap();
    assert_eq!(take_offer(&mut e, &take_ctx(1)), Err(EscrowError::InsufficientFunds));
    assert_eq!(bal(&e, TAKER, ASSET_B), Some(49));
    assert_eq!(bal(&e, TAKER, ASSET_A), None);
    assert_eq!(bal(&e, MAKER, ASSET_B), None);
    assert_eq!(e.vault_balance(MAKER, 1), Some(100));
    assert!(e.offer(MAKER, 1).is_some());
}

#[test]
fn take_offer_overflow_rolls_back_payment() {
    let mut e = escrow_with(&[
        (MAKER, ASSET_A, 100),
        (TAKER, ASSET_B, 50),
        (TAKER, ASSET_A, u64::MAX - 99),
    ]);
    make_offer(&mut e, &make_ctx(), 1, 100, 50).unwrap();
    assert_eq!(take_offer(&mut e, &take_ctx(1)), Err(EscrowError::Overflow));
    assert_eq!(bal(&e, TAKER, ASSET_B), Some(50));
    assert_eq!(bal(&e, MAKER, ASSET_B), None);
    assert_eq!(bal(&e, TAKER, ASSET_A), Some(u64::MAX - 99));
    assert_eq!(e.vault_balance(MAKER, 1), Some(100));
    assert!(e.offer(MAKER, 1).is_some());
}

#[test]
fn take_offer_reuses_existing_accounts() {
    let mut e = escrow_with(&[
        (MAKER, ASSET_A, 100),
        (TAKER, ASSET_B, 80),
        (TAKER, ASSET_A, 7),
        (MAKER, ASSET_B, 3),
    ]);
    make_offer(&mut e, &make_ctx(), 1, 100, 50).unwrap();
    assert_eq!(take_offer(&mut e, &take_ctx(1)), Ok(()));
    assert_eq!(bal(&e, TAKER, ASSET_A), Some(107));
    assert_eq!(bal(&e, MAKER, ASSET_B), Some(53));
    assert_eq!(bal(&e, TAKER, ASSET_B), Some(30));
}

#[test]
fn take_offer_pays_whole_vault_not_wanted_amount() {
    let mut e = setup(70, 5);
    make_offer(&mut e, &make_ctx(), 4, 70, 5).unwrap();
    assert_eq!(take_offer(&mut e, &take_ctx(4)), Ok(()));
    assert_eq!(bal(&e, TAKER, ASSET_A), Some(70));
    assert_eq!(bal(&e, MAKER, ASSET_B), Some(5));
}

#[test]
fn maker_taking_own_offer_gets_deposit_back() {
    let mut e = escrow_with(&[(MAKER, ASSET_A, 100), (MAKER, ASSET_B, 50)]);
    make_offer(&mut e, &make_ctx(), 1, 100, 50).unwrap();
    let mut ctx = take_ctx(1);
    ctx.taker = MAKER;
    ctx.taker_token_a_account = acct(MAKER, ASSET_A);
    ctx.taker_token_b_account = acct(MAKER, ASSET_B);
    assert_eq!(take_offer(&mut e, &ctx), Ok(()));
    assert_eq!(bal(&e, MAKER, ASSET_A), Some(100));
    assert_eq!(bal(&e, MAKER, ASSET_B), Some(50));
    assert_eq!(e.offer(MAKER, 1), None);
}

#[test]
fn offer_steps_one_by_one() {
    let mut e = setup(100, 50);
    assert_eq!(send_offered_tokens_to_vault(&mut e, &make_ctx(), 3, 60), Ok(()));
    assert_eq!(e.vault_balance(MAKER, 3), Some(60));
    assert_eq!(e.offer(MAKER, 3), None);
    assert_eq!(send_offered_tokens_to_vault(&mut e, &make_ctx(), 3, 1), Err(EscrowError::AddressCollision));
    assert_eq!(save_offer(&mut e, &make_ctx(), 3, 50), Ok(()));
    assert_eq!(save_offer(&mut e, &make_ctx(), 3, 50), Err(EscrowError::AddressCollision));
    assert_eq!(e.offer(MAKER, 3).unwrap().token_b_wanted, 50);

    assert_eq!(bal(&e, TAKER, ASSET_A), None);
    assert_eq!(bal(&e, MAKER, ASSET_B), None);
    // Without the maker's asset B account the payment has nowhere to go.
    assert_eq!(send_tokens_to_maker(&mut e, &take_ctx(3)), Err(EscrowError::InvalidAccount));
    assert_eq!(pull_tokens_from_vault(&mut e, &take_ctx(3)), Err(EscrowError::InvalidAccount));
    assert_eq!(send_tokens_to_maker(&mut e, &take_ctx(8)), Err(EscrowError::NotFound));
    assert_eq!(pull_tokens_from_vault(&mut e, &take_ctx(8)), Err(EscrowError::NotFound));
}

#[test]
fn ledger_transfer_checks() {
    let mut l = Ledger::new();
    l.add_asset(ASSET_A, 6);
    l.open_account(MAKER, ASSET_A).unwrap();
    l.open_account(TAKER, ASSET_A).unwrap();
    l.credit(MAKER, ASSET_A, 10).unwrap();
    assert_eq!(l.transfer_checked(acct(MAKER, ASSET_A), acct(TAKER, ASSET_A), ASSET_A, 6, 4), Ok(()));
    assert_eq!(l.balance(MAKER, ASSET_A), Some(6));
    assert_eq!(l.balance(TAKER, ASSET_A), Some(4));
    assert_eq!(
        l.transfer_checked(acct(MAKER, ASSET_A), acct(TAKER, ASSET_A), ASSET_A, 2, 1),
        Err(EscrowError::AssetMismatch)
    );
    assert_eq!(
        l.transfer_checked(acct(MAKER, ASSET_A), acct(TAKER, ASSET_B), ASSET_A, 6, 1),
        Err(EscrowError::AssetMismatch)
    );
    assert_eq!(
        l.transfer_checked(acct(MAKER, ASSET_A), acct(TAKER, ASSET_A), ASSET_A, 6, 7),
        Err(EscrowError::InsufficientFunds)
    );
    assert_eq!(
        l.transfer_checked(acct(MAKER, ASSET_A), acct(OTHER, ASSET_A), ASSET_A, 6, 1),
        Err(EscrowError::InvalidAccount)
    );
    assert_eq!(l.transfer_checked(acct(MAKER, ASSET_A), acct(MAKER, ASSET_A), ASSET_A, 6, 6), Ok(()));
    assert_eq!(l.balance(MAKER, ASSET_A), Some(6));
    assert_eq!(l.open_account(OTHER, ASSET_B), Err(EscrowError::AssetMismatch));
    assert_eq!(l.decimals(ASSET_A), Some(6));
    assert_eq!(l.decimals(ASSET_B), None);
    assert_eq!(l.credit(TAKER, ASSET_A, u64::MAX), Err(EscrowError::Overflow));
    assert_eq!(l.credit(OTHER, ASSET_A, 1), Err(EscrowError::InvalidAccount));
}

#[test]
fn zero_deposit_is_refused() {
    let mut e = setup(10, 0);
    assert_eq!(make_offer(&mut e, &make_ctx(), 1, 0, 5), Err(EscrowError::ZeroDeposit));
    assert_eq!(e.vault_balance(MAKER, 1), None);
    assert_eq!(e.offer(MAKER, 1), None);
    assert_eq!(bal(&e, MAKER, ASSET_A), Some(10));
    assert_eq!(send_offered_tokens_to_vault(&mut e, &make_ctx(), 1, 0), Err(EscrowError::ZeroDeposit));
    assert_eq!(e.vault_balance(MAKER, 1), None);
}

#[test]
fn save_offer_needs_funded_vault() {
    let mut e = setup(10, 0);
    assert_eq!(save_offer(&mut e, &make_ctx(), 1, 5), Err(EscrowError::InvalidAccount));
    assert_eq!(e.offer(MAKER, 1), None);
}

#[test]
fn error_names() {
    assert_eq!(EscrowError::InvalidAccount.name(), "InvalidAccount");
    assert_eq!(EscrowError::InsufficientFunds.name(), "InsufficientFunds");
    assert_eq!(EscrowError::AddressCollision.name(), "AddressCollision");
    assert_eq!(EscrowError::AssetMismatch.name(), "AssetMismatch");
    assert_eq!(EscrowError::AccountMismatch.name(), "AccountMismatch");
    assert_eq!(EscrowError::NotFound.name(), "NotFound");
    assert_eq!(EscrowError::Overflow.name(), "Overflow");
    assert_eq!(EscrowError::ZeroDeposit.name(), "ZeroDeposit");
}
