use amm_pool::{
    settle_deposit, CallContext, ErrorKind, PoolError, Uniswap, GAS_RESERVED, STORAGE_DEPOSIT,
    TRANSFER_METHOD, TRANSFER_RECIPIENT,
};

const GAS: u64 = 1_000_000_000_000_000_000;

fn fresh_pool() -> Uniswap {
    Uniswap::new("token.testnet".to_string(), false).unwrap()
}

fn call(caller: &str, payment: u128, native_reserve: u128) -> CallContext {
    CallContext {
        payment,
        native_reserve,
        caller: caller.to_string(),
        pool_account: "alice_near".to_string(),
        prepaid_gas: GAS,
    }
}

/// A pool with 1000 shares, all held by carol, and 500 units of the paired asset.
fn live_pool() -> Uniswap {
    let mut pool = fresh_pool();
    pool.add_liquidity(0, 7, &call("carol_near", 1000, 0)).unwrap();
    pool.set_paired_asset_reserve(500);
    pool
}

fn ledger_sum(pool: &Uniswap, accounts: &[&str]) -> u128 {
    let mut sum: u128 = 0;
    for account in accounts {
        sum += pool.shares_of(&account.to_string()).unwrap_or(0);
    }
    sum
}

#[test]
fn new_pool_is_empty() {
    let pool = fresh_pool();
    assert_eq!(0, pool.total_shares());
    assert_eq!(0, pool.paired_asset_reserve());
    assert_eq!("token.testnet", pool.paired_asset_ledger());
    assert_eq!(None, pool.shares_of(&"carol_near".to_string()));
}

#[test]
fn second_set_up_is_rejected() {
    assert_eq!(
        Err(PoolError::AlreadyInitialized),
        Uniswap::new("token.testnet".to_string(), true)
    );
    assert_eq!(ErrorKind::Reinitialization, PoolError::AlreadyInitialized.kind());
}

#[test]
fn bootstrap_issues_one_share_per_unit_paid() {
    for (payment, cap) in [(1u128, 1u128), (1000, 7), (u128::MAX, u128::MAX)] {
        let mut pool = fresh_pool();
        let settlement = pool.add_liquidity(0, cap, &call("carol_near", payment, 0)).unwrap();
        assert_eq!(payment, settlement.deposit.minted_shares);
        assert_eq!(payment, pool.total_shares());
        assert_eq!(Some(payment), pool.shares_of(&"carol_near".to_string()));
        assert_eq!(cap, settlement.transfer.amount);
    }
}

#[test]
fn bootstrap_counts_the_balance_the_pool_had() {
    let mut pool = fresh_pool();
    let settlement = pool.add_liquidity(0, 7, &call("carol_near", 1000, 24)).unwrap();
    assert_eq!(1024, settlement.deposit.minted_shares);
    assert_eq!(1024, pool.total_shares());
    assert_eq!(Some(1024), pool.shares_of(&"carol_near".to_string()));
}

#[test]
fn transfer_request_names_pool_recipient_and_amount() {
    let mut pool = fresh_pool();
    let settlement = pool.add_liquidity(0, 7, &call("carol_near", 1000, 0)).unwrap();
    let transfer = settlement.transfer;
    assert_eq!("token.testnet", transfer.ledger_account);
    assert_eq!("alice_near", transfer.source_account);
    assert_eq!("avrit.testnet", transfer.destination_account);
    assert_eq!(TRANSFER_RECIPIENT, transfer.destination_account);
    assert_eq!(7, transfer.amount);
    assert_eq!(38600000000000000000000, transfer.deposit);
    assert_eq!(STORAGE_DEPOSIT, transfer.deposit);
    assert_eq!(GAS - 10_000_000_000_000, transfer.gas);
    assert_eq!(10_000_000_000_000, GAS_RESERVED);
    assert_eq!("transfer_from", TRANSFER_METHOD);
}

#[test]
fn proportional_deposit_rounds_for_the_pool() {
    let mut pool = live_pool();
    let settlement = pool.add_liquidity(1, 51, &call("bob_near", 100, 1000)).unwrap();
    assert_eq!(51, settlement.transfer.amount);
    assert_eq!(51, settlement.deposit.token_amount);
    assert_eq!(100, settlement.deposit.minted_shares);
    assert_eq!(1100, pool.total_shares());
    assert_eq!(Some(100), pool.shares_of(&"bob_near".to_string()));
    assert_eq!(Some(1000), pool.shares_of(&"carol_near".to_string()));
    assert_eq!(500, pool.paired_asset_reserve());
}

#[test]
fn supply_is_the_sum_of_the_ledger_after_each_call() {
    let accounts = ["carol_near", "bob_near", "dave_near"];
    let mut pool = fresh_pool();
    assert_eq!(pool.total_shares(), ledger_sum(&pool, &accounts));
    pool.add_liquidity(0, 7, &call("carol_near", 1000, 0)).unwrap();
    assert_eq!(pool.total_shares(), ledger_sum(&pool, &accounts));
    pool.set_paired_asset_reserve(500);
    let mut native: u128 = 1000;
    for (caller, payment) in
        [("bob_near", 100u128), ("carol_near", 33), ("dave_near", 1), ("bob_near", 4321)]
    {
        pool.add_liquidity(1, u128::MAX, &call(caller, payment, native)).unwrap();
        native += payment;
        assert_eq!(pool.total_shares(), ledger_sum(&pool, &accounts));
    }
    // a rejected call in between changes neither side
    assert!(pool.add_liquidity(1, 1, &call("dave_near", 1000, native)).is_err());
    assert_eq!(pool.total_shares(), ledger_sum(&pool, &accounts));
    assert_eq!(1000 + 100 + 33 + 1 + 4321, pool.total_shares());
}

#[test]
fn repeat_depositor_accumulates() {
    let mut pool = live_pool();
    pool.add_liquidity(1, 51, &call("bob_near", 100, 1000)).unwrap();
    // 100 * 1100 / 1100 = 100
    let settlement = pool.add_liquidity(1, 51, &call("bob_near", 100, 1100)).unwrap();
    assert_eq!(100, settlement.deposit.minted_shares);
    assert_eq!(46, settlement.transfer.amount);
    assert_eq!(Some(200), pool.shares_of(&"bob_near".to_string()));
    assert_eq!(1200, pool.total_shares());
}

#[test]
fn slippage_on_cost_leaves_the_pool_untouched() {
    let mut pool = live_pool();
    pool.set_status("bob_near".to_string(), "hello".to_string());
    let before = pool.clone();
    let rejected = pool.add_liquidity(1, 50, &call("bob_near", 100, 1000));
    assert_eq!(Err(PoolError::TokenAmountAboveMax), rejected);
    assert_eq!(ErrorKind::Slippage, PoolError::TokenAmountAboveMax.kind());
    assert_eq!(before, pool);
    assert_eq!(1000, pool.total_shares());
    assert_eq!(500, pool.paired_asset_reserve());
    assert_eq!(None, pool.shares_of(&"bob_near".to_string()));
    assert_eq!(Some(1000), pool.shares_of(&"carol_near".to_string()));
}

#[test]
fn slippage_on_issuance_leaves_the_pool_untouched() {
    let mut pool = live_pool();
    let before = pool.clone();
    let rejected = pool.add_liquidity(101, 51, &call("bob_near", 100, 1000));
    assert_eq!(Err(PoolError::MintedBelowMin), rejected);
    assert_eq!(before, pool);
}

#[test]
fn zero_payment_is_rejected_whatever_the_pool_holds() {
    let mut empty = fresh_pool();
    let before = empty.clone();
    assert_eq!(Err(PoolError::ZeroPayment), empty.add_liquidity(0, 7, &call("bob_near", 0, 0)));
    assert_eq!(Err(PoolError::ZeroPayment), empty.add_liquidity(1, 7, &call("bob_near", 0, 55)));
    assert_eq!(before, empty);
    let mut live = live_pool();
    let before = live.clone();
    assert_eq!(Err(PoolError::ZeroPayment), live.add_liquidity(1, 51, &call("bob_near", 0, 1000)));
    assert_eq!(Err(PoolError::ZeroPayment), live.add_liquidity(0, 51, &call("carol_near", 0, 0)));
    assert_eq!(before, live);
}

#[test]
fn zero_cap_is_rejected() {
    let mut pool = fresh_pool();
    assert_eq!(Err(PoolError::ZeroMaxTokens), pool.add_liquidity(0, 0, &call("bob_near", 5, 0)));
    let mut pool = live_pool();
    assert_eq!(Err(PoolError::ZeroMaxTokens), pool.add_liquidity(1, 0, &call("bob_near", 5, 1000)));
}

#[test]
fn zero_min_liquidity_is_rejected_once_the_pool_is_live() {
    let mut pool = live_pool();
    let before = pool.clone();
    assert_eq!(
        Err(PoolError::ZeroMinLiquidity),
        pool.add_liquidity(0, 51, &call("bob_near", 100, 1000))
    );
    assert_eq!(before, pool);
}

#[test]
fn empty_native_reserve_under_a_live_pool_is_an_invariant_violation() {
    let mut pool = live_pool();
    let before = pool.clone();
    let rejected = pool.add_liquidity(1, 51, &call("bob_near", 100, 0));
    assert_eq!(Err(PoolError::ZeroReserve), rejected);
    assert_eq!(ErrorKind::InvariantViolation, PoolError::ZeroReserve.kind());
    assert_eq!(before, pool);
}

#[test]
fn second_call_never_bootstraps_again() {
    let mut pool = fresh_pool();
    pool.add_liquidity(0, 7, &call("carol_near", 1000, 0)).unwrap();
    // a second bootstrap would hand carol 1500 shares and set the supply to 1500
    let settlement = pool.add_liquidity(1, 7, &call("carol_near", 500, 1000)).unwrap();
    assert_eq!(500, settlement.deposit.minted_shares);
    assert_eq!(1, settlement.transfer.amount);
    assert_eq!(1500, pool.total_shares());
    assert_eq!(Some(1500), pool.shares_of(&"carol_near".to_string()));
    // and the rules of a live pool hold for it
    assert_eq!(
        Err(PoolError::ZeroMinLiquidity),
        pool.add_liquidity(0, 7, &call("carol_near", 500, 1500))
    );
    let settlement = pool.add_liquidity(1, 7, &call("bob_near", 3, 1500)).unwrap();
    assert_eq!(3, settlement.deposit.minted_shares);
    assert_eq!(Some(3), pool.shares_of(&"bob_near".to_string()));
    assert_eq!(Some(1500), pool.shares_of(&"carol_near".to_string()));
}

#[test]
fn magnitudes_near_the_top_abort_and_do_not_wrap() {
    let top = u128::MAX;

    // first deposit: the balance after the payment would be 2^128
    let mut pool = fresh_pool();
    let before = pool.clone();
    assert_eq!(
        Err(PoolError::ArithmeticOverflow),
        pool.add_liquidity(0, 7, &call("carol_near", top, 1))
    );
    assert_eq!(before, pool);

    // later deposit: payment * paired reserve would be 2^129 - 2
    let mut pool = fresh_pool();
    pool.add_liquidity(0, 7, &call("carol_near", top - 1, 0)).unwrap();
    pool.set_paired_asset_reserve(top);
    let before = pool.clone();
    assert_eq!(
        Err(PoolError::ArithmeticOverflow),
        pool.add_liquidity(1, top, &call("bob_near", 2, top - 1))
    );
    assert_eq!(before, pool);

    // later deposit: payment * supply would be 2^129 - 4
    pool.set_paired_asset_reserve(0);
    let before = pool.clone();
    assert_eq!(
        Err(PoolError::ArithmeticOverflow),
        pool.add_liquidity(1, top, &call("bob_near", 2, top - 1))
    );
    assert_eq!(before, pool);

    // later deposit: 1 * (2^128 - 2) / 1 shares on top of a supply of 2^128 - 2
    assert_eq!(
        Err(PoolError::ArithmeticOverflow),
        pool.add_liquidity(1, top, &call("bob_near", 1, 1))
    );
    assert_eq!(before, pool);
    assert_eq!(top - 1, pool.total_shares());
    assert_eq!(Some(top - 1), pool.shares_of(&"carol_near".to_string()));
    assert_eq!(None, pool.shares_of(&"bob_near".to_string()));
    assert_eq!(ErrorKind::InvariantViolation, PoolError::ArithmeticOverflow.kind());
}

#[test]
fn largest_supply_is_reached_exactly() {
    let mut pool = fresh_pool();
    pool.add_liquidity(0, 7, &call("carol_near", u128::MAX - 1, 0)).unwrap();
    // 1 * (2^128 - 2) / (2^128 - 2) = 1
    let settlement = pool.add_liquidity(1, 1, &call("bob_near", 1, u128::MAX - 1)).unwrap();
    assert_eq!(1, settlement.deposit.minted_shares);
    assert_eq!(u128::MAX, pool.total_shares());
    assert_eq!(Some(1), pool.shares_of(&"bob_near".to_string()));
}

#[test]
fn gas_budget_below_the_reserve_rejects_the_call() {
    let mut pool = fresh_pool();
    let before = pool.clone();
    let mut ctx = call("carol_near", 1000, 0);
    ctx.prepaid_gas = GAS_RESERVED - 1;
    assert_eq!(Err(PoolError::ArithmeticOverflow), pool.add_liquidity(0, 7, &ctx));
    assert_eq!(before, pool);
    ctx.prepaid_gas = GAS_RESERVED;
    let settlement = pool.add_liquidity(0, 7, &ctx).unwrap();
    assert_eq!(0, settlement.transfer.gas);
}

#[test]
fn input_and_slippage_come_before_gas() {
    let mut pool = live_pool();
    let mut ctx = call("bob_near", 100, 1000);
    ctx.prepaid_gas = 0;
    assert_eq!(Err(PoolError::TokenAmountAboveMax), pool.add_liquidity(1, 50, &ctx));
    assert_eq!(Err(PoolError::ArithmeticOverflow), pool.add_liquidity(1, 51, &ctx));
}

#[test]
fn paired_asset_reserve_is_set_from_outside() {
    let mut pool = live_pool();
    pool.set_paired_asset_reserve(123);
    assert_eq!(123, pool.paired_asset_reserve());
    assert_eq!(1000, pool.total_shares());
    assert_eq!(Some(1000), pool.shares_of(&"carol_near".to_string()));
}

#[test]
fn context_from_host_takes_the_payment_off_the_balance() {
    let ctx = CallContext::from_host(
        1100,
        100,
        "carol_near".to_string(),
        "alice_near".to_string(),
        GAS,
    )
    .unwrap();
    assert_eq!(call("carol_near", 100, 1000), ctx);
    let ctx =
        CallContext::from_host(100, 100, "carol_near".to_string(), "alice_near".to_string(), GAS)
            .unwrap();
    assert_eq!(0, ctx.native_reserve);
    assert_eq!(
        Err(PoolError::ArithmeticOverflow),
        CallContext::from_host(99, 100, "carol_near".to_string(), "alice_near".to_string(), GAS)
    );
}

#[test]
fn settling_on_plain_values_agrees_with_the_pool() {
    let mut pool = live_pool();
    let ctx = call("carol_near", 100, 1000);
    let settled =
        settle_deposit(1000, 500, Some(1000), &"token.testnet".to_string(), 1, 51, &ctx).unwrap();
    let recorded = pool.add_liquidity(1, 51, &ctx).unwrap();
    assert_eq!(settled, recorded);
    assert_eq!(settled.deposit.total_shares, pool.total_shares());
    assert_eq!(Some(settled.deposit.caller_shares), pool.shares_of(&"carol_near".to_string()));
    assert_eq!(1100, settled.deposit.caller_shares);
    assert_eq!(
        Err(PoolError::TokenAmountAboveMax),
        settle_deposit(1000, 500, None, &"token.testnet".to_string(), 1, 50, &ctx)
    );
}
