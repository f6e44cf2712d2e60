use lowcapfun::{
    buy_tokens, is_token_alive, launch_token, nuke_token, sell_tokens, BondingConfig, ErrorCode,
    Settlement,
};

const DAY: i64 = 86_400;
const T0: i64 = 1_700_000_000;

fn market(curve_type: u8, supply: u64) -> BondingConfig {
    launch_token([7u8; 32], 254, T0, supply, curve_type).unwrap()
}

#[test]
fn launch_creates_empty_record() {
    let c = launch_token([9u8; 32], 200, T0, 100_000, 2).unwrap();
    assert_eq!(c.token_mint, [9u8; 32]);
    assert_eq!(c.bump, 200);
    assert_eq!(c.total_supply, 100_000);
    assert_eq!(c.curve_type, 2);
    assert_eq!(c.tokens_sold, 0);
    assert_eq!(c.launch_timestamp, T0);
}

#[test]
fn launch_rejects_unknown_curve() {
    assert_eq!(
        launch_token([0u8; 32], 0, T0, 1000, 4).unwrap_err(),
        ErrorCode::InvalidCurveType
    );
}

#[test]
fn end_to_end_linear_scenario() {
    let mut c = market(0, 100_000);
    let s = buy_tokens(&mut c, T0 + 5, 10_000_000, 1000).unwrap();
    assert_eq!(s, Settlement { tokens: 1000, lamports: 1_000_000 });
    assert_eq!(c.tokens_sold, 1000);
    let s = buy_tokens(&mut c, T0 + 6, 10_000_000, 1).unwrap();
    assert_eq!(s, Settlement { tokens: 1, lamports: 1001 });
    assert_eq!(c.tokens_sold, 1001);
}

#[test]
fn round_trip_is_not_balance_neutral() {
    let mut c = market(0, 100_000);
    let start: u64 = 5_000_000;
    let paid = buy_tokens(&mut c, T0, start, 1000).unwrap();
    let refund = sell_tokens(&mut c, 1000).unwrap();
    assert_eq!(paid.lamports, 1_000_000);
    assert_eq!(refund.lamports, 1_001_000);
    assert_eq!(start - paid.lamports + refund.lamports, 5_001_000);
    assert_eq!(c.tokens_sold, 0);
}

#[test]
fn round_trip_within_a_lot_is_neutral() {
    let mut c = market(0, 100_000);
    let paid = buy_tokens(&mut c, T0, 1_000_000, 10).unwrap();
    let refund = sell_tokens(&mut c, 10).unwrap();
    assert_eq!(paid, refund);
    assert_eq!(c.tokens_sold, 0);
}

#[test]
fn sell_clamps_counter_at_zero() {
    let mut c = market(0, 100_000);
    buy_tokens(&mut c, T0, u64::MAX, 2500).unwrap();
    let s = sell_tokens(&mut c, 4000).unwrap();
    assert_eq!(s, Settlement { tokens: 4000, lamports: 4000 * 1002 });
    assert_eq!(c.tokens_sold, 0);
}

#[test]
fn sell_is_allowed_on_dead_market() {
    let mut c = market(3, 100_000);
    buy_tokens(&mut c, T0, u64::MAX, 10).unwrap();
    assert_eq!(is_token_alive(&c, T0 + 2 * DAY), Ok(false));
    let s = sell_tokens(&mut c, 10).unwrap();
    assert_eq!(s.lamports, 10_000);
    assert_eq!(c.tokens_sold, 0);
}

#[test]
fn buy_rejects_insufficient_funds() {
    let mut c = market(0, 100_000);
    let before = c;
    assert_eq!(buy_tokens(&mut c, T0, 999_999, 1000), Err(ErrorCode::InsufficientFunds));
    assert_eq!(c.tokens_sold, before.tokens_sold);
    assert_eq!(buy_tokens(&mut c, T0, 1_000_000, 1000).unwrap().lamports, 1_000_000);
}

#[test]
fn buy_reports_total_overflow() {
    let mut c = market(0, 100_000);
    assert_eq!(
        buy_tokens(&mut c, T0, u64::MAX, u64::MAX / 100),
        Err(ErrorCode::ArithmeticOverflow)
    );
    assert_eq!(c.tokens_sold, 0);
}

#[test]
fn sell_reports_total_overflow() {
    let mut c = market(3, 100_000);
    assert_eq!(sell_tokens(&mut c, u64::MAX), Err(ErrorCode::ArithmeticOverflow));
}

#[test]
fn buy_reports_counter_overflow() {
    let mut c = market(2, 100_000);
    c.tokens_sold = 10_000;
    let free = buy_tokens(&mut c, T0, 0, u64::MAX - 10_000).unwrap();
    assert_eq!(free.lamports, 0);
    assert_eq!(c.tokens_sold, u64::MAX);
    assert_eq!(buy_tokens(&mut c, T0, 0, 1), Err(ErrorCode::ArithmeticOverflow));
    assert_eq!(c.tokens_sold, u64::MAX);
}

#[test]
fn buy_reports_exponential_overflow() {
    let mut c = market(1, 100_000);
    buy_tokens(&mut c, T0, u64::MAX, 18_000).unwrap();
    assert_eq!(buy_tokens(&mut c, T0, u64::MAX, 1), Err(ErrorCode::ArithmeticOverflow));
    assert_eq!(c.tokens_sold, 18_000);
}

#[test]
fn buy_on_buy_does_not_check_supply() {
    let mut c = market(0, 100);
    assert!(buy_tokens(&mut c, T0, u64::MAX, 1000).is_ok());
    assert_eq!(c.tokens_sold, 1000);
}

#[test]
fn young_market_is_alive_whatever_sold() {
    let c = market(3, 100_000);
    assert_eq!(is_token_alive(&c, T0), Ok(true));
    assert_eq!(is_token_alive(&c, T0 + DAY - 1), Ok(true));
    let empty = market(3, 0);
    assert_eq!(is_token_alive(&empty, T0 + DAY - 1), Ok(true));
}

#[test]
fn old_market_alive_by_sold_fraction() {
    let mut c = market(3, 100_000);
    assert_eq!(is_token_alive(&c, T0 + DAY), Ok(false));
    c.tokens_sold = 69_999;
    assert_eq!(is_token_alive(&c, T0 + DAY), Ok(false));
    c.tokens_sold = 70_000;
    assert_eq!(is_token_alive(&c, T0 + DAY), Ok(true));
}

#[test]
fn old_market_with_no_supply_reports_division_by_zero() {
    let c = market(3, 0);
    assert_eq!(is_token_alive(&c, T0 + DAY), Err(ErrorCode::DivisionByZero));
    assert_eq!(nuke_token(&c, T0 + DAY), Err(ErrorCode::DivisionByZero));
}

#[test]
fn alive_handles_extreme_times() {
    let mut c = market(3, u64::MAX);
    c.tokens_sold = u64::MAX;
    c.launch_timestamp = i64::MIN;
    assert_eq!(is_token_alive(&c, i64::MAX), Ok(true));
    c.tokens_sold = 0;
    assert_eq!(is_token_alive(&c, i64::MAX), Ok(false));
}

#[test]
fn buy_rejected_on_dead_time_bomb() {
    let mut c = market(3, 100_000);
    assert_eq!(
        buy_tokens(&mut c, T0 + DAY, u64::MAX, 1),
        Err(ErrorCode::TokenSelfDestructed)
    );
    assert_eq!(c.tokens_sold, 0);
}

#[test]
fn old_non_time_bomb_still_trades() {
    let mut c = market(0, 100_000);
    assert!(buy_tokens(&mut c, T0 + 10 * DAY, u64::MAX, 1).is_ok());
}

#[test]
fn nuke_rejects_young_time_bomb() {
    let c = market(3, 100_000);
    assert_eq!(nuke_token(&c, T0 + 60), Err(ErrorCode::TokenStillAlive));
}

#[test]
fn nuke_rejects_well_sold_time_bomb() {
    let mut c = market(3, 100_000);
    c.tokens_sold = 80_000;
    assert_eq!(nuke_token(&c, T0 + 3 * DAY), Err(ErrorCode::TokenStillAlive));
}

#[test]
fn nuke_rejects_other_curves() {
    for tag in 0u8..3 {
        let c = market(tag, 100_000);
        assert_eq!(nuke_token(&c, T0), Err(ErrorCode::NotTimeBomb));
        assert_eq!(nuke_token(&c, T0 + 100 * DAY), Err(ErrorCode::NotTimeBomb));
    }
}

#[test]
fn nuke_accepts_dead_time_bomb() {
    let mut c = market(3, 100_000);
    c.tokens_sold = 1000;
    assert_eq!(nuke_token(&c, T0 + DAY), Ok(()));
}
