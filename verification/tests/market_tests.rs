use minimarket::market::{AccountId, BettingParams, ContractError, Market, MarketParams, MarketStatus};

fn base_market(token_a_amount: u64, token_b_amount: u64) -> Market {
    Market {
        value: 0,
        range: 0,
        creator: AccountId([1; 32]),
        feed: AccountId([2; 32]),
        token_a: AccountId([3; 32]),
        token_b: AccountId([4; 32]),
        market_status: MarketStatus::Active,
        token_a_amount,
        token_b_amount,
        token_price_a: 500000,
        token_price_b: 500000,
        total_reserve: 0,
        yes_amount: 0,
        no_amount: 0,
        result: false,
        bump: 254,
        date: 1700000000,
    }
}

fn assert_markets_equal(left: &Market, right: &Market) {
    assert_eq!(left.value, right.value);
    assert_eq!(left.range, right.range);
    assert_eq!(left.creator, right.creator);
    assert_eq!(left.feed, right.feed);
    assert_eq!(left.token_a, right.token_a);
    assert_eq!(left.token_b, right.token_b);
    assert_eq!(left.market_status, right.market_status);
    assert_eq!(left.token_a_amount, right.token_a_amount);
    assert_eq!(left.token_b_amount, right.token_b_amount);
    assert_eq!(left.token_price_a, right.token_price_a);
    assert_eq!(left.token_price_b, right.token_price_b);
    assert_eq!(left.total_reserve, right.total_reserve);
    assert_eq!(left.yes_amount, right.yes_amount);
    assert_eq!(left.no_amount, right.no_amount);
    assert_eq!(left.result, right.result);
    assert_eq!(left.bump, right.bump);
    assert_eq!(left.date, right.date);
}

#[test]
fn initialization_determinism() {
    let mut market = base_market(1, 1);
    market.result = true;
    market.yes_amount = 9;
    market.no_amount = 9;
    market.total_reserve = 9;
    market.market_status = MarketStatus::Resolved;
    market.update_market_settings(
        (1.0f64).to_bits(),
        5,
        AccountId([10; 32]),
        AccountId([11; 32]),
        AccountId([12; 32]),
        AccountId([13; 32]),
        1000,
        500000,
        42,
    );
    assert_eq!(market.value, (1.0f64).to_bits());
    assert_eq!(market.range, 5);
    assert_eq!(market.creator, AccountId([10; 32]));
    assert_eq!(market.feed, AccountId([11; 32]));
    assert_eq!(market.token_a, AccountId([12; 32]));
    assert_eq!(market.token_b, AccountId([13; 32]));
    assert_eq!(market.market_status, MarketStatus::Created);
    assert_eq!(market.token_a_amount, 1000);
    assert_eq!(market.token_b_amount, 1000);
    assert_eq!(market.token_price_a, 500000);
    assert_eq!(market.token_price_b, 500000);
    assert_eq!(market.total_reserve, 0);
    assert_eq!(market.yes_amount, 0);
    assert_eq!(market.no_amount, 0);
    assert!(!market.result);
    assert_eq!(market.bump, 254);
    assert_eq!(market.date, 42);
}

#[test]
fn trade_scenario_yes() {
    let mut market = base_market(1000, 1000);
    let r = market.set_token_price(100, true);
    assert!(r.is_ok());
    assert_eq!(market.token_a_amount, 900);
    assert_eq!(market.token_b_amount, 1111);
    assert_eq!(market.token_price_a, 552461);
    assert_eq!(market.token_price_b, 447538);
    assert_eq!(market.yes_amount, 100);
    assert_eq!(market.no_amount, 0);
}

#[test]
fn trade_scenario_no() {
    let mut market = base_market(1000, 1000);
    let r = market.set_token_price(100, false);
    assert!(r.is_ok());
    assert_eq!(market.token_b_amount, 900);
    assert_eq!(market.token_a_amount, 1111);
    assert_eq!(market.token_price_a, 447538);
    assert_eq!(market.token_price_b, 552461);
    assert_eq!(market.no_amount, 100);
    assert_eq!(market.yes_amount, 0);
}

#[test]
fn product_preserved_up_to_floor() {
    let mut market = base_market(1000, 1000);
    market.set_token_price(100, true).unwrap();
    let product = market.token_a_amount as u128 * market.token_b_amount as u128;
    assert!(product <= 1000000);
    assert!(1000000 < product + market.token_a_amount as u128);
}

#[test]
fn product_preserved_exactly_when_division_is_exact() {
    let mut market = base_market(2, 2);
    market.set_token_price(1, true).unwrap();
    assert_eq!(market.token_a_amount, 1);
    assert_eq!(market.token_b_amount, 4);
    assert_eq!(market.token_a_amount * market.token_b_amount, 4);
}

#[test]
fn price_normalization_exact_case() {
    let mut market = base_market(2, 2);
    market.set_token_price(1, true).unwrap();
    assert_eq!(market.token_price_a, 800000);
    assert_eq!(market.token_price_b, 200000);
    assert_eq!(market.token_price_a + market.token_price_b, 1000000);
}

#[test]
fn price_sum_loses_at_most_one_unit() {
    let mut market = base_market(1000, 1000);
    market.set_token_price(100, true).unwrap();
    let sum = market.token_price_a + market.token_price_b;
    assert_eq!(sum, 999999);
}

#[test]
fn underflow_equal_amount_rejected() {
    let mut market = base_market(1000, 1000);
    let before = market;
    let r = market.set_token_price(1000, true);
    assert_eq!(r, Err(ContractError::ArithmeticError));
    assert_markets_equal(&market, &before);
}

#[test]
fn underflow_excess_amount_rejected() {
    let mut market = base_market(1000, 1000);
    let before = market;
    let r = market.set_token_price(1500, true);
    assert_eq!(r, Err(ContractError::ArithmeticError));
    assert_markets_equal(&market, &before);
    let r = market.set_token_price(1500, false);
    assert_eq!(r, Err(ContractError::ArithmeticError));
    assert_markets_equal(&market, &before);
}

#[test]
fn overflow_of_cumulative_volume_rejected() {
    let mut market = base_market(1000, 1000);
    market.yes_amount = u64::MAX;
    let before = market;
    let r = market.set_token_price(1, true);
    assert_eq!(r, Err(ContractError::ArithmeticError));
    assert_markets_equal(&market, &before);
}

#[test]
fn overflow_of_restored_reserve_rejected() {
    let mut market = base_market(u64::MAX, u64::MAX);
    let before = market;
    let r = market.set_token_price(u64::MAX - 1, true);
    assert_eq!(r, Err(ContractError::ArithmeticError));
    assert_markets_equal(&market, &before);
}

#[test]
fn overflow_of_total_liquidity_rejected() {
    let mut market = base_market(u64::MAX, 1);
    let before = market;
    let r = market.set_token_price(u64::MAX - 1, true);
    assert_eq!(r, Err(ContractError::ArithmeticError));
    assert_markets_equal(&market, &before);
}

#[test]
fn drained_opposite_reserve_still_quotes() {
    let mut market = base_market(1000, 0);
    let r = market.set_token_price(100, true);
    assert!(r.is_ok());
    assert_eq!(market.token_a_amount, 900);
    assert_eq!(market.token_b_amount, 0);
    assert_eq!(market.token_price_a, 0);
    assert_eq!(market.token_price_b, 1000000);
}

#[test]
fn trade_on_empty_consumed_reserve_rejected() {
    let mut market = base_market(0, 1000);
    let before = market;
    let r = market.set_token_price(1, true);
    assert_eq!(r, Err(ContractError::ArithmeticError));
    assert_markets_equal(&market, &before);
}

#[test]
fn volumes_accumulate_and_stay_isolated() {
    let mut market = base_market(10000, 10000);
    market.set_token_price(100, true).unwrap();
    assert_eq!(market.yes_amount, 100);
    assert_eq!(market.no_amount, 0);
    market.set_token_price(250, false).unwrap();
    assert_eq!(market.yes_amount, 100);
    assert_eq!(market.no_amount, 250);
    market.set_token_price(50, true).unwrap();
    assert_eq!(market.yes_amount, 150);
    assert_eq!(market.no_amount, 250);
    let failed = market.set_token_price(u64::MAX, true);
    assert!(failed.is_err());
    assert_eq!(market.yes_amount, 150);
    assert_eq!(market.no_amount, 250);
}

#[test]
fn status_overwrite_changes_only_status() {
    let mut market = base_market(1000, 1000);
    market.market_status = MarketStatus::Created;
    let before = market;
    market.update_market_status(MarketStatus::Prepare);
    assert_eq!(market.market_status, MarketStatus::Prepare);
    market.update_market_status(MarketStatus::Active);
    assert_eq!(market.market_status, MarketStatus::Active);
    market.update_market_status(MarketStatus::Resolved);
    assert_eq!(market.market_status, MarketStatus::Resolved);
    market.market_status = before.market_status;
    assert_markets_equal(&market, &before);
}

#[test]
fn signer_seeds_hold_tag_id_and_bump() {
    let id = vec![109u8, 49u8];
    let seeds = Market::get_signer(254, &id);
    assert_eq!(seeds.len(), 3);
    assert_eq!(seeds[0], b"market".to_vec());
    assert_eq!(seeds[1], id);
    assert_eq!(seeds[2], vec![254u8]);
}

#[test]
fn signer_seeds_with_empty_id() {
    let seeds = Market::get_signer(0, &[]);
    assert_eq!(seeds.len(), 3);
    assert_eq!(seeds[0], b"market".to_vec());
    assert_eq!(seeds[1], Vec::<u8>::new());
    assert_eq!(seeds[2], vec![0u8]);
}

#[test]
fn params_records_carry_their_fields() {
    let market_params = MarketParams {
        market_id: String::from("m1"),
        value: (2.5f64).to_bits(),
        range: 3,
        token_amount: 500,
        token_price: 500000,
        date: 7,
        name_a: Some(String::from("YES")),
        symbol_a: None,
        url_a: None,
        name_b: Some(String::from("NO")),
        symbol_b: None,
        url_b: None,
    };
    let betting_params = BettingParams {
        market_id: market_params.market_id.clone(),
        amount: 50,
        is_yes: true,
    };
    let mut market = base_market(1, 1);
    market.update_market_settings(
        market_params.value,
        market_params.range,
        AccountId([10; 32]),
        AccountId([11; 32]),
        AccountId([12; 32]),
        AccountId([13; 32]),
        market_params.token_amount,
        market_params.token_price,
        market_params.date,
    );
    assert_eq!(f64::from_bits(market.value), 2.5);
    let r = market.set_token_price(betting_params.amount, betting_params.is_yes);
    assert!(r.is_ok());
    assert_eq!(market.token_a_amount, 450);
    assert_eq!(market.yes_amount, 50);
}
