use market_wire::{
    Binary64, ContractType, Exchange, LiquidationEvent, LiquidationSnapshot, SettlementCurrency,
    Side, SymbolPair, LIQUIDATION_WINDOW_MS,
};

fn num(value: f64) -> Binary64 {
    Binary64::from_bits(value.to_bits())
}

fn plus(a: Binary64, b: Binary64) -> Binary64 {
    Binary64::from_bits((f64::from_bits(a.to_bits()) + f64::from_bits(b.to_bits())).to_bits())
}

fn liquidation(ts: u64, engine_ts: u64, side: Side, qty: f64, raw_qty: f64) -> LiquidationEvent {
    LiquidationEvent {
        exchange: Exchange::Bybit,
        symbol: SymbolPair { canonical: String::from("BTC-USDT"), raw: String::from("BTCUSDT") },
        contract_type: ContractType::Linear,
        settlement_currency: SettlementCurrency::Usdt,
        side,
        price: num(64_250.5),
        quantity: num(qty),
        raw_quantity: num(raw_qty),
        exchange_timestamp: ts,
        engine_timestamp: engine_ts,
        data_source: String::from("ws"),
    }
}

#[test]
fn new_seeds_identity_and_window_without_counting() {
    let seed = liquidation(1_000, 1_007, Side::Buy, 2.0, 2.5);
    let snapshot = LiquidationSnapshot::new(&seed);
    assert_eq!(snapshot.exchange, Exchange::Bybit);
    assert_eq!(snapshot.symbol, seed.symbol);
    assert_eq!(snapshot.contract_type, ContractType::Linear);
    assert_eq!(snapshot.settlement_currency, SettlementCurrency::Usdt);
    assert_eq!(snapshot.window_start, 1_000);
    assert_eq!(snapshot.window_len, 300_000);
    assert_eq!(snapshot.window_len, LIQUIDATION_WINDOW_MS);
    assert_eq!(snapshot.buy_count, 0);
    assert_eq!(snapshot.sell_count, 0);
    assert_eq!(snapshot.total_buy_qty, num(0.0));
    assert_eq!(snapshot.total_sell_qty, num(0.0));
    assert_eq!(snapshot.raw_total_buy_qty, num(0.0));
    assert_eq!(snapshot.raw_total_sell_qty, num(0.0));
    assert_eq!(snapshot.exchange_timestamp, 1_000);
    assert_eq!(snapshot.engine_timestamp, 1_007);
}

#[test]
fn end_to_end_three_events_across_a_rollover() {
    let e1 = liquidation(1_000, 1_001, Side::Buy, 2.0, 2.5);
    let e2 = liquidation(1_500, 1_502, Side::Sell, 1.0, 1.2);
    let e3 = liquidation(301_500, 301_503, Side::Buy, 5.0, 5.5);
    let mut snapshot = LiquidationSnapshot::new(&e1);
    snapshot.update(&e1, plus);
    snapshot.update(&e2, plus);
    snapshot.update(&e3, plus);
    assert_eq!(snapshot.window_start, 301_500);
    assert_eq!(snapshot.buy_count, 1);
    assert_eq!(snapshot.sell_count, 0);
    assert_eq!(f64::from_bits(snapshot.total_buy_qty.to_bits()), 5.0);
    assert_eq!(f64::from_bits(snapshot.raw_total_buy_qty.to_bits()), 5.5);
    assert_eq!(f64::from_bits(snapshot.total_sell_qty.to_bits()), 0.0);
    assert_eq!(f64::from_bits(snapshot.raw_total_sell_qty.to_bits()), 0.0);
    assert_eq!(snapshot.total_sell_qty, num(0.0));
    assert_eq!(snapshot.raw_total_sell_qty, num(0.0));
    assert_eq!(snapshot.exchange_timestamp, 301_500);
    assert_eq!(snapshot.engine_timestamp, 301_503);
    assert_eq!(snapshot.window_len, 300_000);
}

#[test]
fn state_before_the_rollover_holds_both_sides() {
    let e1 = liquidation(1_000, 1_001, Side::Buy, 2.0, 2.5);
    let e2 = liquidation(1_500, 1_502, Side::Sell, 1.0, 1.2);
    let mut snapshot = LiquidationSnapshot::new(&e1);
    snapshot.update(&e1, plus);
    snapshot.update(&e2, plus);
    assert_eq!(snapshot.window_start, 1_000);
    assert_eq!(snapshot.buy_count, 1);
    assert_eq!(snapshot.sell_count, 1);
    assert_eq!(snapshot.total_buy_qty, num(2.0));
    assert_eq!(snapshot.raw_total_buy_qty, num(2.5));
    assert_eq!(snapshot.total_sell_qty, num(1.0));
    assert_eq!(snapshot.raw_total_sell_qty, num(1.2));
    assert_eq!(snapshot.exchange_timestamp, 1_500);
    assert_eq!(snapshot.engine_timestamp, 1_502);
}

#[test]
fn buy_changes_only_the_buy_side() {
    let seed = liquidation(10_000, 10_000, Side::Sell, 3.0, 30.0);
    let mut snapshot = LiquidationSnapshot::new(&seed);
    snapshot.update(&seed, plus);
    snapshot.update(&liquidation(10_010, 10_011, Side::Sell, 4.0, 40.0), plus);
    let before = snapshot.clone();
    snapshot.update(&liquidation(10_020, 10_021, Side::Buy, 0.25, 0.5), plus);
    assert_eq!(snapshot.buy_count, before.buy_count + 1);
    assert_eq!(snapshot.buy_count, 1);
    assert_eq!(snapshot.total_buy_qty, num(0.25));
    assert_eq!(snapshot.raw_total_buy_qty, num(0.5));
    assert_eq!(snapshot.sell_count, 2);
    assert_eq!(snapshot.total_sell_qty, num(7.0));
    assert_eq!(snapshot.raw_total_sell_qty, num(70.0));
    assert_eq!(snapshot.sell_count, before.sell_count);
    assert_eq!(snapshot.total_sell_qty, before.total_sell_qty);
    assert_eq!(snapshot.raw_total_sell_qty, before.raw_total_sell_qty);
}

#[test]
fn sell_changes_only_the_sell_side() {
    let seed = liquidation(10_000, 10_000, Side::Buy, 1.5, 15.0);
    let mut snapshot = LiquidationSnapshot::new(&seed);
    snapshot.update(&seed, plus);
    let before = snapshot.clone();
    snapshot.update(&liquidation(10_020, 10_021, Side::Sell, 8.0, 0.125), plus);
    assert_eq!(snapshot.sell_count, 1);
    assert_eq!(snapshot.total_sell_qty, num(8.0));
    assert_eq!(snapshot.raw_total_sell_qty, num(0.125));
    assert_eq!(snapshot.buy_count, before.buy_count);
    assert_eq!(snapshot.buy_count, 1);
    assert_eq!(snapshot.total_buy_qty, num(1.5));
    assert_eq!(snapshot.raw_total_buy_qty, num(15.0));
}

#[test]
fn totals_are_sums_in_arrival_order() {
    let seed = liquidation(0, 0, Side::Buy, 0.1, 1e16);
    let mut snapshot = LiquidationSnapshot::new(&seed);
    snapshot.update(&seed, plus);
    snapshot.update(&liquidation(1, 1, Side::Buy, 0.2, 1.0), plus);
    snapshot.update(&liquidation(2, 2, Side::Buy, 0.3, -1e16), plus);
    assert_eq!(snapshot.buy_count, 3);
    assert_eq!(snapshot.total_buy_qty, num(((0.0 + 0.1) + 0.2) + 0.3));
    assert_eq!(f64::from_bits(snapshot.total_buy_qty.to_bits()), 0.6000000000000001);
    assert_eq!(snapshot.raw_total_buy_qty, num(((0.0 + 1e16) + 1.0) + -1e16));
    assert_eq!(f64::from_bits(snapshot.raw_total_buy_qty.to_bits()), 0.0);
}

#[test]
fn one_millisecond_past_the_window_resets() {
    let t: u64 = 1_700_000_000_000;
    let seed = liquidation(t, t, Side::Buy, 2.0, 2.5);
    let mut snapshot = LiquidationSnapshot::new(&seed);
    snapshot.update(&seed, plus);
    snapshot.update(&liquidation(t + 5, t + 5, Side::Sell, 1.0, 1.5), plus);
    snapshot.update(&liquidation(t + 300_001, t + 300_009, Side::Sell, 4.0, 4.5), plus);
    assert_eq!(snapshot.window_start, t + 300_001);
    assert_eq!(snapshot.buy_count, 0);
    assert_eq!(snapshot.total_buy_qty, num(0.0));
    assert_eq!(snapshot.raw_total_buy_qty, num(0.0));
    assert_eq!(snapshot.sell_count, 1);
    assert_eq!(snapshot.total_sell_qty, num(4.0));
    assert_eq!(snapshot.raw_total_sell_qty, num(4.5));
    assert_eq!(snapshot.exchange_timestamp, t + 300_001);
    assert_eq!(snapshot.engine_timestamp, t + 300_009);
    assert_eq!(snapshot.window_len, 300_000);
}

#[test]
fn exactly_at_the_window_end_does_not_reset() {
    let t: u64 = 1_700_000_000_000;
    let seed = liquidation(t, t, Side::Buy, 2.0, 2.5);
    let mut snapshot = LiquidationSnapshot::new(&seed);
    snapshot.update(&seed, plus);
    snapshot.update(&liquidation(t + 300_000, t + 300_004, Side::Sell, 4.0, 4.5), plus);
    assert_eq!(snapshot.window_start, t);
    assert_eq!(snapshot.buy_count, 1);
    assert_eq!(snapshot.total_buy_qty, num(2.0));
    assert_eq!(snapshot.raw_total_buy_qty, num(2.5));
    assert_eq!(snapshot.sell_count, 1);
    assert_eq!(snapshot.total_sell_qty, num(4.0));
    assert_eq!(snapshot.raw_total_sell_qty, num(4.5));
    assert_eq!(snapshot.exchange_timestamp, t + 300_000);
    assert_eq!(snapshot.engine_timestamp, t + 300_004);
}

#[test]
fn window_length_is_read_from_the_snapshot() {
    let seed = liquidation(100, 100, Side::Buy, 1.0, 1.0);
    let mut snapshot = LiquidationSnapshot::new(&seed);
    snapshot.window_len = 10;
    snapshot.update(&seed, plus);
    snapshot.update(&liquidation(110, 110, Side::Buy, 1.0, 1.0), plus);
    assert_eq!(snapshot.window_start, 100);
    assert_eq!(snapshot.buy_count, 2);
    snapshot.update(&liquidation(111, 111, Side::Buy, 1.0, 1.0), plus);
    assert_eq!(snapshot.window_start, 111);
    assert_eq!(snapshot.buy_count, 1);
    assert_eq!(snapshot.window_len, 10);
}

#[test]
fn event_before_the_window_start_is_folded_into_the_open_window() {
    let seed = liquidation(500_000, 500_000, Side::Buy, 2.0, 2.5);
    let mut snapshot = LiquidationSnapshot::new(&seed);
    snapshot.update(&seed, plus);
    snapshot.update(&liquidation(0, 500_020, Side::Buy, 1.0, 1.5), plus);
    assert_eq!(snapshot.window_start, 500_000);
    assert_eq!(snapshot.buy_count, 2);
    assert_eq!(snapshot.total_buy_qty, num(3.0));
    assert_eq!(snapshot.raw_total_buy_qty, num(4.0));
    assert_eq!(snapshot.exchange_timestamp, 0);
    assert_eq!(snapshot.engine_timestamp, 500_020);
}

#[test]
fn event_far_before_a_late_window_start_does_not_wrap() {
    let seed = liquidation(u64::MAX, 7, Side::Sell, 1.0, 1.0);
    let mut snapshot = LiquidationSnapshot::new(&seed);
    snapshot.update(&seed, plus);
    snapshot.update(&liquidation(1, 8, Side::Sell, 1.0, 1.0), plus);
    assert_eq!(snapshot.window_start, u64::MAX);
    assert_eq!(snapshot.sell_count, 2);
    assert_eq!(snapshot.exchange_timestamp, 1);
}

#[test]
fn late_event_after_a_rollover_lands_in_the_new_window() {
    let seed = liquidation(1_000, 1_000, Side::Buy, 2.0, 2.0);
    let mut snapshot = LiquidationSnapshot::new(&seed);
    snapshot.update(&seed, plus);
    snapshot.update(&liquidation(400_000, 400_000, Side::Buy, 3.0, 3.0), plus);
    assert_eq!(snapshot.window_start, 400_000);
    snapshot.update(&liquidation(2_000, 400_001, Side::Sell, 7.0, 7.0), plus);
    assert_eq!(snapshot.window_start, 400_000);
    assert_eq!(snapshot.buy_count, 1);
    assert_eq!(snapshot.sell_count, 1);
    assert_eq!(snapshot.total_buy_qty, num(3.0));
    assert_eq!(snapshot.total_sell_qty, num(7.0));
}

#[test]
fn timestamps_follow_the_latest_event_with_and_without_reset() {
    let seed = liquidation(1_000, 9_000, Side::Buy, 1.0, 1.0);
    let mut snapshot = LiquidationSnapshot::new(&seed);
    snapshot.update(&liquidation(900, 8_000, Side::Buy, 1.0, 1.0), plus);
    assert_eq!(snapshot.exchange_timestamp, 900);
    assert_eq!(snapshot.engine_timestamp, 8_000);
    snapshot.update(&liquidation(1_000_000, 7_000, Side::Sell, 1.0, 1.0), plus);
    assert_eq!(snapshot.window_start, 1_000_000);
    assert_eq!(snapshot.exchange_timestamp, 1_000_000);
    assert_eq!(snapshot.engine_timestamp, 7_000);
}

#[test]
fn reset_starts_the_sum_from_positive_zero() {
    let seed = liquidation(0, 0, Side::Buy, 1.0, 1.0);
    let mut snapshot = LiquidationSnapshot::new(&seed);
    snapshot.update(&seed, plus);
    snapshot.update(&liquidation(300_001, 300_001, Side::Buy, -0.0, -0.0), plus);
    assert_eq!(snapshot.buy_count, 1);
    assert_eq!(snapshot.total_buy_qty.to_bits(), 0);
    assert_eq!(snapshot.raw_total_buy_qty.to_bits(), 0);
}

#[test]
fn update_keeps_the_identity_of_the_snapshot() {
    let seed = liquidation(1_000, 1_000, Side::Buy, 1.0, 1.0);
    let mut snapshot = LiquidationSnapshot::new(&seed);
    let mut other = liquidation(900_000, 900_000, Side::Sell, 1.0, 1.0);
    other.exchange = Exchange::Okx;
    other.symbol = SymbolPair { canonical: String::from("ETH-USD"), raw: String::from("ETHUSD") };
    other.contract_type = ContractType::Inverse;
    other.settlement_currency = SettlementCurrency::Eth;
    snapshot.update(&other, plus);
    assert_eq!(snapshot.exchange, Exchange::Bybit);
    assert_eq!(snapshot.symbol.canonical, "BTC-USDT");
    assert_eq!(snapshot.symbol.raw, "BTCUSDT");
    assert_eq!(snapshot.contract_type, ContractType::Linear);
    assert_eq!(snapshot.settlement_currency, SettlementCurrency::Usdt);
}

#[test]
fn update_stores_what_the_adder_returns() {
    let seed = liquidation(0, 0, Side::Sell, 2.0, 3.0);
    let mut snapshot = LiquidationSnapshot::new(&seed);
    snapshot.update(&seed, |a: Binary64, b: Binary64| {
        Binary64::from_bits(a.to_bits() * 1_000 + b.to_bits() % 1_000)
    });
    assert_eq!(snapshot.total_sell_qty.to_bits(), 2.0f64.to_bits() % 1_000);
    assert_eq!(snapshot.raw_total_sell_qty.to_bits(), 3.0f64.to_bits() % 1_000);
    assert_eq!(snapshot.total_buy_qty.to_bits(), 0);
    assert_eq!(snapshot.raw_total_buy_qty.to_bits(), 0);
}

#[test]
fn rollover_is_decided_by_venue_time_alone() {
    let seed = liquidation(1_000, 1_000, Side::Buy, 1.0, 1.0);
    let mut snapshot = LiquidationSnapshot::new(&seed);
    snapshot.update(&seed, plus);
    snapshot.update(&liquidation(1_001, 9_000_000_000, Side::Buy, 1.0, 1.0), plus);
    assert_eq!(snapshot.window_start, 1_000);
    assert_eq!(snapshot.buy_count, 2);
    assert_eq!(snapshot.engine_timestamp, 9_000_000_000);
    snapshot.update(&liquidation(301_001, 0, Side::Buy, 1.0, 1.0), plus);
    assert_eq!(snapshot.window_start, 301_001);
    assert_eq!(snapshot.buy_count, 1);
    assert_eq!(snapshot.engine_timestamp, 0);
}

#[test]
fn counters_can_reach_the_largest_value() {
    let seed = liquidation(1_000, 1_000, Side::Sell, 1.0, 1.0);
    let mut snapshot = LiquidationSnapshot::new(&seed);
    snapshot.sell_count = u64::MAX - 1;
    snapshot.buy_count = u64::MAX;
    snapshot.update(&seed, plus);
    assert_eq!(snapshot.sell_count, u64::MAX);
    assert_eq!(snapshot.buy_count, u64::MAX);
    snapshot.update(&liquidation(400_000, 400_000, Side::Buy, 1.0, 1.0), plus);
    assert_eq!(snapshot.buy_count, 1);
    assert_eq!(snapshot.sell_count, 0);
}

#[test]
fn window_start_at_the_latest_possible_time_never_expires() {
    let seed = liquidation(u64::MAX - 300_000, 0, Side::Buy, 1.0, 1.0);
    let mut snapshot = LiquidationSnapshot::new(&seed);
    snapshot.update(&liquidation(u64::MAX, 1, Side::Buy, 1.0, 1.0), plus);
    assert_eq!(snapshot.window_start, u64::MAX - 300_000);
    assert_eq!(snapshot.buy_count, 1);
    assert_eq!(snapshot.exchange_timestamp, u64::MAX);
}

#[test]
fn has_room_for_tells_when_a_counter_is_full() {
    let seed = liquidation(1_000, 1_000, Side::Sell, 1.0, 1.0);
    let mut snapshot = LiquidationSnapshot::new(&seed);
    assert!(snapshot.has_room_for(&seed));
    snapshot.sell_count = u64::MAX;
    assert!(!snapshot.has_room_for(&seed));
    assert!(snapshot.has_room_for(&liquidation(1_000, 1_000, Side::Buy, 1.0, 1.0)));
    assert!(!snapshot.has_room_for(&liquidation(301_000, 0, Side::Sell, 1.0, 1.0)));
    assert!(snapshot.has_room_for(&liquidation(301_001, 0, Side::Sell, 1.0, 1.0)));
    snapshot.sell_count = u64::MAX - 1;
    assert!(snapshot.has_room_for(&seed));
}
