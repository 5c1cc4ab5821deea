use stellar_pay_amm::pool::StellarPayAmm;
use stellar_pay_amm::types::{
    Address, AddressKind, AmmError, DataKey, Direction, Reserves, StoredValue, Transfer,
};

fn account(n: u128) -> Address {
    Address { kind: AddressKind::Account, key_hi: 0, key_lo: n }
}

fn token(n: u128) -> Address {
    Address { kind: AddressKind::Contract, key_hi: 7, key_lo: n }
}

/// A holder's balance once `t` is carried out.
fn holder_after(balance: i128, t: &Transfer) -> i128 {
    match t.direction {
        Direction::IntoPool => balance - t.amount,
        Direction::OutOfPool => balance + t.amount,
    }
}

fn empty() -> Reserves {
    Reserves { reserve_a: 0, reserve_b: 0 }
}

#[test]
fn test_initialize() {
    let admin = account(1);
    let mut client = StellarPayAmm::new();
    let token_a_id = token(1);
    let token_b_id = token(2);

    assert_eq!(client.initialize(admin, token_a_id, token_b_id, 30), Ok(()));

    let (stored_admin, stored_token_a, stored_token_b, stored_fee) =
        client.get_contract_info().unwrap();

    assert_eq!(stored_admin, admin);
    assert_eq!(stored_token_a, token_a_id);
    assert_eq!(stored_token_b, token_b_id);
    assert_eq!(stored_fee, 30);
}

#[test]
fn test_deposit_and_get_reserves() {
    let admin = account(1);
    let user = account(2);
    let mut client = StellarPayAmm::new();
    let token_a_id = token(1);
    let token_b_id = token(2);

    client.initialize(admin, token_a_id, token_b_id, 30).unwrap();

    let user_a: i128 = 1000;
    let user_b: i128 = 2000;

    let plan = client.deposit(empty(), user, 500, 1000).unwrap();
    assert_eq!(holder_after(user_a, &plan.transfer_a), 500);
    assert_eq!(holder_after(user_b, &plan.transfer_b), 1000);

    let (reserve_a, reserve_b) = client.get_reserves(plan.reserves_after).unwrap();
    assert_eq!(reserve_a, 500);
    assert_eq!(reserve_b, 1000);
}

#[test]
fn test_swap() {
    let admin = account(1);
    let user = account(2);
    let mut client = StellarPayAmm::new();
    let token_a_id = token(1);
    let token_b_id = token(2);

    client.initialize(admin, token_a_id, token_b_id, 30).unwrap();

    let minted_a: i128 = 2000;
    let minted_b: i128 = 2000;

    let deposit = client.deposit(empty(), user, 1000, 1000).unwrap();
    let user_balance_a_before = holder_after(minted_a, &deposit.transfer_a);
    let user_balance_b_before = holder_after(minted_b, &deposit.transfer_b);

    let plan = client.swap(deposit.reserves_after, user, token_a_id, 100, 90).unwrap();
    let amount_out = plan.amount_out;

    assert!(amount_out > 0);
    assert!(amount_out >= 90);

    assert_eq!(plan.transfer_in.token, token_a_id);
    assert_eq!(plan.transfer_out.token, token_b_id);
    let user_balance_a_after = holder_after(user_balance_a_before, &plan.transfer_in);
    let user_balance_b_after = holder_after(user_balance_b_before, &plan.transfer_out);

    assert_eq!(user_balance_a_after, user_balance_a_before - 100);
    assert_eq!(user_balance_b_after, user_balance_b_before + amount_out);
}

#[test]
fn test_quote_swap() {
    let admin = account(1);
    let user = account(2);
    let mut client = StellarPayAmm::new();
    let token_a_id = token(1);
    let token_b_id = token(2);

    client.initialize(admin, token_a_id, token_b_id, 30).unwrap();
    let deposit = client.deposit(empty(), user, 1000, 1000).unwrap();

    let quoted_amount = client.quote_swap(deposit.reserves_after, token_a_id, 100).unwrap();

    assert!(quoted_amount > 0);
    assert!(quoted_amount < 100);
}

#[test]
fn test_set_fee() {
    let admin = account(1);
    let mut client = StellarPayAmm::new();
    let token_a_id = token(1);
    let token_b_id = token(2);

    client.initialize(admin, token_a_id, token_b_id, 30).unwrap();

    assert_eq!(client.set_fee(admin, 50), Ok(()));

    let (_, _, _, fee) = client.get_contract_info().unwrap();
    assert_eq!(fee, 50);
}

#[test]
#[should_panic(expected = "Contract already initialized")]
fn test_double_initialization() {
    let admin = account(1);
    let mut client = StellarPayAmm::new();
    let token_a_id = token(1);
    let token_b_id = token(2);

    client.initialize(admin, token_a_id, token_b_id, 30).unwrap();

    client.initialize(admin, token_a_id, token_b_id, 50).expect("Contract already initialized");
}

#[test]
fn second_initialize_is_refused_and_changes_nothing() {
    let mut client = StellarPayAmm::new();
    client.initialize(account(1), token(1), token(2), 30).unwrap();
    let before = client;
    assert_eq!(
        client.initialize(account(9), token(3), token(4), 50),
        Err(AmmError::AlreadyInitialized)
    );
    assert_eq!(client, before);
    assert_eq!(client.get_contract_info(), Ok((account(1), token(1), token(2), 30)));
}

#[test]
fn nothing_is_stored_before_setup() {
    let client = StellarPayAmm::new();
    assert_eq!(client.get(DataKey::Initialized), None);
    assert_eq!(client.get(DataKey::Admin), None);
    assert_eq!(client.get_contract_info(), Err(AmmError::NotInitialized));
    assert_eq!(client.get_reserves(empty()), Err(AmmError::NotInitialized));
    assert_eq!(client.deposit(empty(), account(2), 1, 1), Err(AmmError::NotInitialized));
    assert_eq!(
        client.swap(Reserves { reserve_a: 5, reserve_b: 5 }, account(2), token(1), 1, 0),
        Err(AmmError::NotInitialized)
    );
    assert_eq!(
        client.quote_swap(Reserves { reserve_a: 5, reserve_b: 5 }, token(1), 1),
        Err(AmmError::NotInitialized)
    );
    let mut client = client;
    assert_eq!(client.set_fee(account(1), 5), Err(AmmError::NotInitialized));
    assert_eq!(client, StellarPayAmm::new());
}

#[test]
fn every_key_is_stored_after_setup() {
    let mut client = StellarPayAmm::new();
    client.initialize(account(1), token(1), token(2), 30).unwrap();
    assert_eq!(client.get(DataKey::Admin), Some(StoredValue::Identity(account(1))));
    assert_eq!(client.get(DataKey::TokenA), Some(StoredValue::Identity(token(1))));
    assert_eq!(client.get(DataKey::TokenB), Some(StoredValue::Identity(token(2))));
    assert_eq!(client.get(DataKey::Fee), Some(StoredValue::FeeRate(30)));
    assert_eq!(client.get(DataKey::Initialized), Some(StoredValue::Flag(true)));
}

#[test]
fn set_fee_by_a_stranger_is_unauthorized() {
    let mut client = StellarPayAmm::new();
    client.initialize(account(1), token(1), token(2), 30).unwrap();
    let before = client;
    assert_eq!(client.set_fee(account(2), 50), Err(AmmError::Unauthorized));
    assert_eq!(client, before);
    // same key, other kind of principal
    let look_alike = Address { kind: AddressKind::Contract, key_hi: 0, key_lo: 1 };
    assert_eq!(client.set_fee(look_alike, 50), Err(AmmError::Unauthorized));
    assert_eq!(client.get(DataKey::Fee), Some(StoredValue::FeeRate(30)));
}

#[test]
fn set_fee_takes_any_rate_and_keeps_the_rest() {
    let mut client = StellarPayAmm::new();
    client.initialize(account(1), token(1), token(2), 30).unwrap();
    assert_eq!(client.set_fee(account(1), 4_000_000_000), Ok(()));
    assert_eq!(
        client.get_contract_info(),
        Ok((account(1), token(1), token(2), 4_000_000_000))
    );
}

#[test]
fn deposit_adds_exactly_the_amounts() {
    let mut client = StellarPayAmm::new();
    client.initialize(account(1), token(1), token(2), 30).unwrap();
    let plan = client
        .deposit(Reserves { reserve_a: 500, reserve_b: 1000 }, account(2), 7, 0)
        .unwrap();
    assert_eq!(plan.reserves_after, Reserves { reserve_a: 507, reserve_b: 1000 });
    assert_eq!(
        plan.transfer_a,
        Transfer { token: token(1), holder: account(2), direction: Direction::IntoPool, amount: 7 }
    );
    assert_eq!(
        plan.transfer_b,
        Transfer { token: token(2), holder: account(2), direction: Direction::IntoPool, amount: 0 }
    );
}

#[test]
fn deposit_in_any_ratio_reprices_the_pool() {
    let mut client = StellarPayAmm::new();
    client.initialize(account(1), token(1), token(2), 30).unwrap();
    let even = Reserves { reserve_a: 1000, reserve_b: 1000 };
    assert_eq!(client.quote_swap(even, token(1), 100), Ok(90));
    let plan = client.deposit(even, account(2), 0, 1000).unwrap();
    assert_eq!(plan.reserves_after, Reserves { reserve_a: 1000, reserve_b: 2000 });
    assert_eq!(client.quote_swap(plan.reserves_after, token(1), 100), Ok(181));
}

#[test]
fn deposit_past_the_integer_range_is_refused() {
    let mut client = StellarPayAmm::new();
    client.initialize(account(1), token(1), token(2), 30).unwrap();
    assert_eq!(
        client.deposit(Reserves { reserve_a: i128::MAX, reserve_b: 0 }, account(2), 1, 0),
        Err(AmmError::ArithmeticOverflow)
    );
    assert_eq!(
        client.deposit(Reserves { reserve_a: 0, reserve_b: i128::MAX }, account(2), 0, 1),
        Err(AmmError::ArithmeticOverflow)
    );
}

#[test]
fn swap_of_100_at_1000_1000_pays_exactly_90() {
    let mut client = StellarPayAmm::new();
    client.initialize(account(1), token(1), token(2), 30).unwrap();
    let reserves = Reserves { reserve_a: 1000, reserve_b: 1000 };
    let plan = client.swap(reserves, account(2), token(1), 100, 90).unwrap();
    assert_eq!(plan.amount_out, 90);
    assert_eq!(
        plan.transfer_in,
        Transfer {
            token: token(1),
            holder: account(2),
            direction: Direction::IntoPool,
            amount: 100
        }
    );
    assert_eq!(
        plan.transfer_out,
        Transfer {
            token: token(2),
            holder: account(2),
            direction: Direction::OutOfPool,
            amount: 90
        }
    );
    assert_eq!(plan.reserves_after, Reserves { reserve_a: 1100, reserve_b: 910 });
}

#[test]
fn swap_of_the_second_asset_uses_the_reserves_the_other_way() {
    let mut client = StellarPayAmm::new();
    client.initialize(account(1), token(1), token(2), 30).unwrap();
    let reserves = Reserves { reserve_a: 1000, reserve_b: 2000 };
    let plan = client.swap(reserves, account(2), token(2), 100, 0).unwrap();
    assert_eq!(plan.amount_out, 47);
    assert_eq!(plan.transfer_in.token, token(2));
    assert_eq!(plan.transfer_out.token, token(1));
    assert_eq!(plan.reserves_after, Reserves { reserve_a: 953, reserve_b: 2100 });
}

#[test]
fn an_unknown_asset_is_treated_as_the_second_asset() {
    let mut client = StellarPayAmm::new();
    client.initialize(account(1), token(1), token(2), 30).unwrap();
    let reserves = Reserves { reserve_a: 1000, reserve_b: 2000 };
    let known = client.swap(reserves, account(2), token(2), 100, 0).unwrap();
    let unknown = client.swap(reserves, account(2), token(99), 100, 0).unwrap();
    assert_eq!(unknown, known);
    assert_eq!(client.quote_swap(reserves, token(99), 100), Ok(47));
}

#[test]
fn swap_without_liquidity_fails_and_quote_gives_zero() {
    let mut client = StellarPayAmm::new();
    client.initialize(account(1), token(1), token(2), 30).unwrap();
    let reserves = Reserves { reserve_a: 0, reserve_b: 1000 };
    assert_eq!(
        client.swap(reserves, account(2), token(1), 100, 0),
        Err(AmmError::InsufficientLiquidity)
    );
    assert_eq!(client.quote_swap(reserves, token(1), 100), Ok(0));
    // the other side has liquidity to sell into, but nothing to pay out
    assert_eq!(client.swap(reserves, account(2), token(2), 100, 0).unwrap().amount_out, 0);
}

#[test]
fn slippage_guard_is_exact_at_the_boundary() {
    let mut client = StellarPayAmm::new();
    client.initialize(account(1), token(1), token(2), 30).unwrap();
    let reserves = Reserves { reserve_a: 1000, reserve_b: 1000 };
    assert_eq!(client.swap(reserves, account(2), token(1), 100, 90).unwrap().amount_out, 90);
    assert_eq!(
        client.swap(reserves, account(2), token(1), 100, 91),
        Err(AmmError::SlippageExceeded)
    );
    assert_eq!(client.swap(reserves, account(2), token(1), 100, -5).unwrap().amount_out, 90);
}

#[test]
fn quote_equals_swap_with_no_minimum() {
    let mut client = StellarPayAmm::new();
    client.initialize(account(1), token(1), token(2), 30).unwrap();
    let reserves = Reserves { reserve_a: 1_000_000, reserve_b: 1_000_000 };
    let quoted = client.quote_swap(reserves, token(1), 10_000).unwrap();
    let plan = client.swap(reserves, account(2), token(1), 10_000, 0).unwrap();
    assert_eq!(quoted, 9871);
    assert_eq!(plan.amount_out, quoted);
}

#[test]
fn swap_past_the_integer_range_is_refused() {
    let mut client = StellarPayAmm::new();
    client.initialize(account(1), token(1), token(2), 30).unwrap();
    let reserves = Reserves { reserve_a: 1000, reserve_b: 1000 };
    assert_eq!(
        client.swap(reserves, account(2), token(1), i128::MAX, 0),
        Err(AmmError::ArithmeticOverflow)
    );
    assert_eq!(
        client.quote_swap(reserves, token(1), i128::MAX),
        Err(AmmError::ArithmeticOverflow)
    );
}

#[test]
fn a_fee_above_the_scale_gives_a_negative_output() {
    let mut client = StellarPayAmm::new();
    client.initialize(account(1), token(1), token(2), 20_000).unwrap();
    let reserves = Reserves { reserve_a: 10, reserve_b: 100 };
    assert_eq!(client.quote_swap(reserves, token(1), 1), Ok(-11));
    assert_eq!(client.quote_swap(reserves, token(1), 6), Ok(-150));
    assert_eq!(
        client.swap(reserves, account(2), token(1), 6, 0),
        Err(AmmError::SlippageExceeded)
    );
    client.set_fee(account(1), 30_000).unwrap();
    // net input -10 against a reserve of 10: the divisor is zero
    assert_eq!(client.quote_swap(reserves, token(1), 5), Err(AmmError::ArithmeticOverflow));
}
