use presale::{
    amount_due, buy, initialize, transfer_ownership, update_token_price, update_tokens_to_sell, updateimeline,
    IdTable, Identity, Init, Ledger, PresaleAccount, PresaleErrors, TransferLamportsAndBuyTokens,
    UpdatePresale, UserAccount,
};

fn id(n: u128) -> Identity {
    Identity::new(0, n)
}

fn owner() -> Identity {
    id(1)
}

fn buyer() -> Identity {
    id(2)
}

fn started() -> Ledger {
    let mut l = Ledger::new();
    assert_eq!(initialize(&mut l, &Init { owner: owner() }, 50, 100, 200, 5, 1000), Ok(()));
    l
}

fn purchase(from: Identity, to: Identity) -> TransferLamportsAndBuyTokens {
    TransferLamportsAndBuyTokens { from, to }
}

#[test]
fn initialize_sets_fresh_configuration() {
    let l = started();
    assert_eq!(
        l.presale_account(),
        Some(PresaleAccount {
            start_time: 100,
            end_time: 200,
            token_price: 5,
            tokens_to_sell: 1000,
            tokens_sold: 0,
            owner: owner(),
        })
    );
}

#[test]
fn initialize_rejects_bad_timeline() {
    let cases: [(i64, u128, u128); 5] =
        [(100, 100, 200), (150, 100, 200), (50, 200, 200), (50, 200, 100), (-1, 0, 0)];
    for (now, start, end) in cases {
        let mut l = Ledger::new();
        assert_eq!(
            initialize(&mut l, &Init { owner: owner() }, now, start, end, 5, 1000),
            Err(PresaleErrors::InvalidTime)
        );
        assert_eq!(l.presale_account(), None);
    }
    let mut l = Ledger::new();
    assert_eq!(initialize(&mut l, &Init { owner: owner() }, -5, 0, 1, 5, 1000), Ok(()));
}

#[test]
fn initialize_rejects_zero_params() {
    for (price, cap) in [(0u128, 1000u128), (5, 0), (0, 0)] {
        let mut l = Ledger::new();
        assert_eq!(
            initialize(&mut l, &Init { owner: owner() }, 50, 100, 200, price, cap),
            Err(PresaleErrors::ZeroParams)
        );
        assert_eq!(l.presale_account(), None);
    }
}

#[test]
fn initialize_twice_is_a_collision() {
    let mut l = started();
    let before = l.presale_account();
    assert_eq!(
        initialize(&mut l, &Init { owner: buyer() }, 0, 10, 20, 7, 7),
        Err(PresaleErrors::AlreadyInitialized)
    );
    assert_eq!(l.presale_account(), before);
}

#[test]
fn update_tokens_to_sell_needs_more_than_sold() {
    let mut l = started();
    l.set_lamports(buyer(), 1000);
    assert_eq!(buy(&mut l, &purchase(buyer(), owner()), 10), Ok(()));
    let ctx = UpdatePresale { owner: owner() };
    assert_eq!(update_tokens_to_sell(&mut l, &ctx, 10), Err(PresaleErrors::InvalidTokenSaleNumbers));
    assert_eq!(update_tokens_to_sell(&mut l, &ctx, 3), Err(PresaleErrors::InvalidTokenSaleNumbers));
    assert_eq!(l.presale_account().unwrap().tokens_to_sell, 1000);
    assert_eq!(update_tokens_to_sell(&mut l, &ctx, 11), Ok(()));
    assert_eq!(l.presale_account().unwrap().tokens_to_sell, 11);
}

#[test]
fn purchases_add_up_and_stay_within_cap() {
    let mut l = started();
    for n in 2..6 {
        l.set_lamports(id(n), 10_000);
    }
    let amounts: [(u128, u128); 4] = [(2, 100), (3, 250), (4, 0), (5, 600)];
    let mut total = 0;
    for (who, n) in amounts {
        assert_eq!(buy(&mut l, &purchase(id(who), owner()), n), Ok(()));
        total += n;
        let s = l.presale_account().unwrap();
        assert_eq!(s.tokens_sold, total);
        assert!(s.tokens_sold <= s.tokens_to_sell);
    }
    assert_eq!(l.presale_account().unwrap().tokens_sold, 950);
    assert_eq!(buy(&mut l, &purchase(id(3), owner()), 51), Err(PresaleErrors::InsufficientTokens));
    assert_eq!(buy(&mut l, &purchase(id(3), owner()), 50), Ok(()));
    assert_eq!(l.presale_account().unwrap().tokens_sold, 1000);
    assert_eq!(l.user_account(&id(3)), Some(UserAccount { bought_amount: 300 }));
}

#[test]
fn insufficient_tokens_changes_nothing() {
    let mut l = started();
    l.set_lamports(buyer(), 10_000);
    assert_eq!(buy(&mut l, &purchase(buyer(), owner()), 1001), Err(PresaleErrors::InsufficientTokens));
    assert_eq!(l.presale_account().unwrap().tokens_sold, 0);
    assert_eq!(l.user_account(&buyer()), None);
    assert_eq!(l.lamports(&buyer()), 10_000);
    assert_eq!(l.lamports(&owner()), 0);
    assert_eq!(buy(&mut l, &purchase(buyer(), owner()), 1000), Ok(()));
}

#[test]
fn buy_moves_price_times_units() {
    let mut l = started();
    l.set_lamports(buyer(), 100);
    l.set_lamports(owner(), 7);
    assert_eq!(buy(&mut l, &purchase(buyer(), owner()), 3), Ok(()));
    assert_eq!(l.lamports(&buyer()), 85);
    assert_eq!(l.lamports(&owner()), 22);
    assert_eq!(l.user_account(&buyer()), Some(UserAccount { bought_amount: 3 }));
    assert_eq!(buy(&mut l, &purchase(buyer(), owner()), 4), Ok(()));
    assert_eq!(l.user_account(&buyer()), Some(UserAccount { bought_amount: 7 }));
    assert_eq!(l.lamports(&buyer()), 65);
    assert_eq!(l.lamports(&owner()), 42);
}

#[test]
fn failed_payment_rolls_back() {
    let mut l = started();
    l.set_lamports(buyer(), 49);
    assert_eq!(buy(&mut l, &purchase(buyer(), owner()), 10), Err(PresaleErrors::InsufficientLamports));
    assert_eq!(l.lamports(&buyer()), 49);
    assert_eq!(l.lamports(&owner()), 0);
    assert_eq!(l.user_account(&buyer()), None);
    assert_eq!(l.presale_account().unwrap().tokens_sold, 0);
}

#[test]
fn only_owner_administers() {
    let mut l = started();
    let before = l.presale_account();
    let stranger = UpdatePresale { owner: buyer() };
    assert_eq!(transfer_ownership(&mut l, &stranger, buyer()), Err(PresaleErrors::NotOwner));
    assert_eq!(updateimeline(&mut l, &stranger, 300, 400), Err(PresaleErrors::NotOwner));
    assert_eq!(update_token_price(&mut l, &stranger, 9), Err(PresaleErrors::NotOwner));
    assert_eq!(update_tokens_to_sell(&mut l, &stranger, 9), Err(PresaleErrors::NotOwner));
    assert_eq!(l.presale_account(), before);

    let ctx = UpdatePresale { owner: owner() };
    assert_eq!(updateimeline(&mut l, &ctx, 300, 400), Ok(()));
    assert_eq!(update_token_price(&mut l, &ctx, 9), Ok(()));
    assert_eq!(update_tokens_to_sell(&mut l, &ctx, 9), Ok(()));
    assert_eq!(transfer_ownership(&mut l, &ctx, buyer()), Ok(()));
    assert_eq!(
        l.presale_account(),
        Some(PresaleAccount {
            start_time: 300,
            end_time: 400,
            token_price: 9,
            tokens_to_sell: 9,
            tokens_sold: 0,
            owner: buyer(),
        })
    );
    assert_eq!(update_token_price(&mut l, &ctx, 10), Err(PresaleErrors::NotOwner));
    assert_eq!(update_token_price(&mut l, &stranger, 10), Ok(()));
}

#[test]
fn admin_before_initialize_fails() {
    let mut l = Ledger::new();
    let ctx = UpdatePresale { owner: owner() };
    assert_eq!(transfer_ownership(&mut l, &ctx, buyer()), Err(PresaleErrors::NotInitialized));
    assert_eq!(updateimeline(&mut l, &ctx, 1, 2), Err(PresaleErrors::NotInitialized));
    assert_eq!(update_token_price(&mut l, &ctx, 1), Err(PresaleErrors::NotInitialized));
    assert_eq!(update_tokens_to_sell(&mut l, &ctx, 1), Err(PresaleErrors::NotInitialized));
    assert_eq!(buy(&mut l, &purchase(buyer(), owner()), 1), Err(PresaleErrors::NotInitialized));
}

#[test]
fn updates_keep_configuration_valid() {
    let mut l = started();
    let ctx = UpdatePresale { owner: owner() };
    assert_eq!(updateimeline(&mut l, &ctx, 300, 300), Err(PresaleErrors::InvalidTime));
    assert_eq!(updateimeline(&mut l, &ctx, 300, 200), Err(PresaleErrors::InvalidTime));
    assert_eq!(update_token_price(&mut l, &ctx, 0), Err(PresaleErrors::ZeroParams));
    assert_eq!(l.presale_account().unwrap().start_time, 100);
    assert_eq!(l.presale_account().unwrap().token_price, 5);
}

#[test]
fn recipient_must_be_owner() {
    let mut l = started();
    l.set_lamports(buyer(), 100);
    assert_eq!(buy(&mut l, &purchase(buyer(), id(9)), 1), Err(PresaleErrors::ToAddressNotOwner));
    assert_eq!(l.lamports(&buyer()), 100);
    assert_eq!(l.presale_account().unwrap().tokens_sold, 0);
}

#[test]
fn price_overflow_is_reported() {
    let mut l = Ledger::new();
    assert_eq!(initialize(&mut l, &Init { owner: owner() }, 0, 1, 2, u128::MAX, u128::MAX), Ok(()));
    l.set_lamports(buyer(), u64::MAX);
    assert_eq!(buy(&mut l, &purchase(buyer(), owner()), 2), Err(PresaleErrors::ArithmeticOverflow));
    let mut l = Ledger::new();
    assert_eq!(initialize(&mut l, &Init { owner: owner() }, 0, 1, 2, 1 << 32, 1 << 40), Ok(()));
    l.set_lamports(buyer(), u64::MAX);
    assert_eq!(buy(&mut l, &purchase(buyer(), owner()), 1 << 32), Err(PresaleErrors::ArithmeticOverflow));
    assert_eq!(buy(&mut l, &purchase(buyer(), owner()), (1 << 32) - 1), Ok(()));
    assert_eq!(l.lamports(&owner()), (1u64 << 32) * ((1u64 << 32) - 1));
}

#[test]
fn owner_buying_from_self_keeps_balance() {
    let mut l = started();
    l.set_lamports(owner(), 40);
    assert_eq!(buy(&mut l, &purchase(owner(), owner()), 8), Ok(()));
    assert_eq!(l.lamports(&owner()), 40);
    assert_eq!(l.user_account(&owner()), Some(UserAccount { bought_amount: 8 }));
    assert_eq!(buy(&mut l, &purchase(owner(), owner()), 9), Err(PresaleErrors::InsufficientLamports));
}

#[test]
fn stored_configuration_is_checked() {
    let good = PresaleAccount {
        start_time: 1,
        end_time: 2,
        token_price: 3,
        tokens_to_sell: 10,
        tokens_sold: 10,
        owner: owner(),
    };
    let l = Ledger::with_presale_account(good).unwrap();
    assert_eq!(l.presale_account(), Some(good));
    let oversold = PresaleAccount { tokens_sold: 11, ..good };
    assert!(Ledger::with_presale_account(oversold).is_none());
    let free = PresaleAccount { token_price: 0, ..good };
    assert!(Ledger::with_presale_account(free).is_none());
}

#[test]
fn table_keeps_one_entry_per_key() {
    let mut t: IdTable<u64> = IdTable::new();
    assert_eq!(t.get(&id(1)), None);
    t.set(id(1), 5);
    t.set(Identity::new(1, 0), 6);
    t.set(id(1), 7);
    assert_eq!(t.get(&id(1)), Some(7));
    assert_eq!(t.get(&Identity::new(1, 0)), Some(6));
    assert_eq!(t.get(&id(2)), None);
}

#[test]
fn scenario_first_purchase() {
    let mut l = Ledger::new();
    assert_eq!(initialize(&mut l, &Init { owner: owner() }, 50, 100, 200, 5, 1000), Ok(()));
    l.set_lamports(buyer(), 50);
    assert_eq!(buy(&mut l, &purchase(buyer(), owner()), 10), Ok(()));
    assert_eq!(l.lamports(&owner()), 50);
    assert_eq!(l.lamports(&buyer()), 0);
    assert_eq!(l.user_account(&buyer()), Some(UserAccount { bought_amount: 10 }));
    assert_eq!(l.presale_account().unwrap().tokens_sold, 10);
}

#[test]
fn scenario_purchase_past_cap() {
    let mut l = Ledger::new();
    assert_eq!(initialize(&mut l, &Init { owner: owner() }, 50, 100, 200, 5, 1000), Ok(()));
    l.set_lamports(buyer(), 50);
    assert_eq!(buy(&mut l, &purchase(buyer(), owner()), 10), Ok(()));
    l.set_lamports(id(3), 1_000_000);
    assert_eq!(buy(&mut l, &purchase(id(3), owner()), 995), Err(PresaleErrors::InsufficientTokens));
    assert_eq!(buy(&mut l, &purchase(buyer(), owner()), 995), Err(PresaleErrors::InsufficientTokens));
    assert_eq!(l.presale_account().unwrap().tokens_sold, 10);
    assert_eq!(l.lamports(&id(3)), 1_000_000);
}

#[test]
fn amount_due_is_price_times_units() {
    assert_eq!(amount_due(5, 10), Some(50));
    assert_eq!(amount_due(0, u128::MAX), Some(0));
    assert_eq!(amount_due(1, u64::MAX as u128), Some(u64::MAX));
    assert_eq!(amount_due(1, u64::MAX as u128 + 1), None);
    assert_eq!(amount_due(u128::MAX, 2), None);
}
