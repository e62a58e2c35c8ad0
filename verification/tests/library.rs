use stock_simulation::dynamic_simulation::{
    DCAWithTrailingStopLoss, Generator, PercentageMaxGenerator, TimeVariantPercentage,
};
use stock_simulation::positions::PositionHeap;
use stock_simulation::price::{bits_are_nan, key_of_bits, Price, HUNDRED_BITS, ZERO_BITS};
use stock_simulation::s_and_p::{
    from_parsed, strip_spaces, to_not_nan, BestCaseSAndP, SAndPHistoricalDaily, SAndPHistoricalDailyRaw,
    SandPConversionError, WorstCaseSAndP,
};
use stock_simulation::simulation::{DollarCostAveragingLinear, InvestmentStrategy, Simulation};
use stock_simulation::stock_action::{
    BuyableSecurity, Stock, StockAction, StockInvestment, StopLossFailure,
};
use stock_simulation::time::{
    add_span, span_between, MAX_UTC_MILLIS, MILLIS_PER_DAY, MIN_UTC_MILLIS,
};

const DAY: i64 = 86_400_000;
/// 2000-01-03T00:00:00Z in milliseconds.
const JAN_3_2000: i64 = 946_857_600_000;

fn p(x: f32) -> Price {
    Price::new(x.to_bits()).unwrap()
}

fn f(price: Price) -> f32 {
    f32::from_bits(price.bits())
}

fn day(date: i64, high: f32, low: f32) -> SAndPHistoricalDaily {
    SAndPHistoricalDaily::new(date, p(low), p(high), p(low), p(high))
}

fn worst(date: i64, high: f32, low: f32) -> WorstCaseSAndP {
    WorstCaseSAndP(day(date, high, low))
}

/// A position bought at `price` with its stop loss (= wipeout) at `stop`.
fn position(time: i64, price: f32, stop: f32) -> StockInvestment {
    StockInvestment::from_parts(time, p(price), p(stop), p(1.0), p(100.0), p(2.0))
}

fn raw(date: &str, open: f32, high: f32, low: f32, close: f32) -> SAndPHistoricalDailyRaw {
    SAndPHistoricalDailyRaw {
        date: date.to_string(),
        open: open.to_bits(),
        high: high.to_bits(),
        low: low.to_bits(),
        close: close.to_bits(),
    }
}

// ---------------------------------------------------------------- prices

#[test]
fn nan_bit_patterns_are_refused() {
    assert!(bits_are_nan(f32::NAN.to_bits()));
    assert!(bits_are_nan((-f32::NAN).to_bits()));
    assert!(bits_are_nan(0x7f80_0001));
    assert!(bits_are_nan(0xffc0_0000));
    assert!(!bits_are_nan(f32::INFINITY.to_bits()));
    assert!(!bits_are_nan(f32::NEG_INFINITY.to_bits()));
    assert!(!bits_are_nan(0.0f32.to_bits()));
    assert!(!bits_are_nan(f32::MAX.to_bits()));
    assert!(Price::new(f32::NAN.to_bits()).is_none());
    assert_eq!(Price::new(1.5f32.to_bits()).unwrap().bits(), 1.5f32.to_bits());
}

#[test]
fn price_order_is_the_numeric_order() {
    let values: Vec<f32> = vec![
        f32::NEG_INFINITY,
        -f32::MAX,
        -1000.5,
        -1.0,
        -f32::MIN_POSITIVE,
        -1.0e-45,
        -0.0,
        0.0,
        1.0e-45,
        f32::MIN_POSITIVE,
        0.5,
        1.0,
        100.0,
        3.0e38,
        f32::MAX,
        f32::INFINITY,
    ];
    for &a in &values {
        for &b in &values {
            assert_eq!(p(a).less_than(&p(b)), a < b, "{a} < {b}");
            assert_eq!(p(a).greater_than(&p(b)), a > b, "{a} > {b}");
            assert_eq!(p(a).same_value(&p(b)), a == b, "{a} == {b}");
        }
    }
    assert_eq!(key_of_bits(0.0f32.to_bits()), 0);
    assert_eq!(key_of_bits((-0.0f32).to_bits()), 0);
    assert_eq!(key_of_bits(1.0f32.to_bits()), 0x3f80_0000);
    assert_eq!(key_of_bits((-1.0f32).to_bits()), -0x3f80_0000);
    assert_eq!(HUNDRED_BITS, 100.0f32.to_bits());
    assert_eq!(ZERO_BITS, 0.0f32.to_bits());
    assert_eq!(f(Price::zero()), 0.0);
}

// ---------------------------------------------------------------- time

#[test]
fn time_range_is_that_of_chrono() {
    assert_eq!(chrono::DateTime::<chrono::Utc>::MIN_UTC.timestamp_millis(), MIN_UTC_MILLIS);
    assert_eq!(chrono::DateTime::<chrono::Utc>::MAX_UTC.timestamp_millis(), MAX_UTC_MILLIS);
    assert_eq!(chrono::Duration::days(1).num_milliseconds(), MILLIS_PER_DAY);
}

#[test]
fn spans_add_and_subtract_like_chrono() {
    let t = JAN_3_2000;
    let d = 30 * DAY;
    let dt = chrono::DateTime::from_timestamp_millis(t).unwrap();
    assert_eq!(add_span(t, d), (dt + chrono::Duration::days(30)).timestamp_millis());
    assert_eq!(add_span(MIN_UTC_MILLIS, d), MIN_UTC_MILLIS + d);
    assert_eq!(span_between(t + d, t), d);
    assert_eq!(span_between(t, t + d), -d);
}

// ---------------------------------------------------------------- S&P rows

#[test]
fn to_not_nan_refuses_only_nan() {
    assert_eq!(to_not_nan(f32::NAN.to_bits()).unwrap_err(), SandPConversionError::IsNaNError);
    assert_eq!(to_not_nan(2.5f32.to_bits()).unwrap().bits(), 2.5f32.to_bits());
    assert_eq!(to_not_nan(f32::INFINITY.to_bits()).unwrap().bits(), f32::INFINITY.to_bits());
}

#[test]
fn row_converts_with_its_date_at_midnight() {
    let d = raw("01/03/2000", 1469.25, 1478.0, 1438.36, 1455.22).try_into().unwrap();
    assert_eq!(d.date(), JAN_3_2000);
    assert_eq!(f(d.open()), 1469.25);
    assert_eq!(f(d.high()), 1478.0);
    assert_eq!(f(d.low()), 1438.36);
    assert_eq!(f(d.close()), 1455.22);
    let later = raw("12/31/2019", 1.0, 2.0, 0.5, 1.5).try_into().unwrap();
    assert_eq!(later.date(), 1_577_750_400_000);
}

#[test]
fn row_with_bad_date_is_a_parse_error() {
    assert_eq!(
        raw("2000-01-03", 1.0, 1.0, 1.0, 1.0).try_into().unwrap_err(),
        SandPConversionError::ParseError
    );
    assert_eq!(
        raw("13/03/2000", 1.0, 1.0, 1.0, 1.0).try_into().unwrap_err(),
        SandPConversionError::ParseError
    );
    // The date is read before any price.
    assert_eq!(
        raw("", f32::NAN, 1.0, 1.0, 1.0).try_into().unwrap_err(),
        SandPConversionError::ParseError
    );
}

#[test]
fn row_with_nan_price_is_a_nan_error() {
    for i in 0..4 {
        let mut prices = [1.0f32; 4];
        prices[i] = f32::NAN;
        let r = raw("01/03/2000", prices[0], prices[1], prices[2], prices[3]).try_into();
        assert_eq!(r.unwrap_err(), SandPConversionError::IsNaNError);
    }
}

#[test]
fn worst_case_buys_high_and_sells_low() {
    let d = SAndPHistoricalDaily::new(JAN_3_2000, p(10.0), p(12.0), p(9.0), p(11.0));
    let w = WorstCaseSAndP(d);
    assert_eq!(f(w.get_buy_price()), 12.0);
    assert_eq!(f(w.get_sell_price()), 9.0);
    assert_eq!(f(w.get_price()), 9.0);
    assert_eq!(w.get_time(), JAN_3_2000);
    let b = BestCaseSAndP(d);
    assert_eq!(f(b.get_buy_price()), 9.0);
    assert_eq!(f(b.get_sell_price()), 12.0);
    assert_eq!(f(b.get_price()), 12.0);
    assert_eq!(b.get_time(), JAN_3_2000);
}

// ---------------------------------------------------------------- positions

#[test]
fn new_position_starts_at_its_purchase() {
    let inv = position(JAN_3_2000, 100.0, 50.0);
    assert_eq!(f(inv.stop_loss()), 50.0);
    assert_eq!(f(inv.wipeout_at()), 50.0);
    assert_eq!(f(inv.get_original_price()), 100.0);
    assert_eq!(f(inv.max_price()), 100.0);
    assert_eq!(f(inv.min_price()), 100.0);
    assert_eq!(inv.max_at(), JAN_3_2000);
    assert_eq!(inv.min_at(), JAN_3_2000);
    assert_eq!(inv.invested_at(), JAN_3_2000);
    assert_eq!(f(inv.unit()), 1.0);
    assert_eq!(f(inv.invested()), 100.0);
    assert_eq!(f(inv.leverage()), 2.0);
}

#[test]
fn eval_tracks_lowest_and_highest_prices() {
    let mut inv = position(0, 100.0, 50.0);
    assert!(!inv.eval(&worst(DAY, 200.0, 90.0)));
    assert_eq!(f(inv.min_price()), 90.0);
    assert_eq!(inv.min_at(), DAY);
    assert!(!inv.eval(&worst(2 * DAY, 200.0, 95.0)));
    assert_eq!(f(inv.min_price()), 90.0);
    assert_eq!(f(inv.max_price()), 100.0);
    assert!(inv.eval(&worst(3 * DAY, 200.0, 120.0)));
    assert_eq!(f(inv.max_price()), 120.0);
    assert_eq!(inv.max_at(), 3 * DAY);
    assert!(!inv.eval(&worst(4 * DAY, 200.0, 120.0)));
    assert_eq!(inv.max_at(), 3 * DAY);
    assert_eq!(f(inv.stop_loss()), 50.0);
}

#[test]
fn stop_loss_never_goes_below_wipeout() {
    let mut inv = position(0, 100.0, 50.0);
    assert_eq!(inv.set_stop_loss(p(49.0)), Err(StopLossFailure::UnderWipeout));
    assert_eq!(f(inv.stop_loss()), 50.0);
    assert_eq!(inv.set_stop_loss(p(80.0)), Ok(()));
    assert_eq!(f(inv.stop_loss()), 80.0);
    assert_eq!(inv.set_stop_loss(p(50.0)), Ok(()));
    assert_eq!(f(inv.stop_loss()), 50.0);
    assert_eq!(f(inv.wipeout_at()), 50.0);
}

#[test]
fn cashout_and_wipeout_follow_the_sell_price() {
    let mut inv = position(0, 100.0, 50.0);
    inv.set_stop_loss(p(80.0)).unwrap();
    let above = worst(DAY, 100.0, 85.0);
    let between = worst(DAY, 100.0, 70.0);
    let below = worst(DAY, 100.0, 40.0);
    assert!(!inv.will_cashout(&above));
    assert!(!inv.will_wipeout(&above));
    assert!(inv.will_cashout(&between));
    assert!(!inv.will_wipeout(&between));
    assert!(inv.will_cashout(&below));
    assert!(inv.will_wipeout(&below));
    // At the stop loss itself the position stays open.
    assert!(!inv.will_cashout(&worst(DAY, 100.0, 80.0)));
}

#[test]
fn positions_compare_by_stop_loss() {
    let a = position(0, 100.0, 50.0);
    let b = position(DAY, 300.0, 50.0);
    let c = position(0, 100.0, 60.0);
    assert!(a == b);
    assert!(a != c);
    assert!(a < c);
    assert!(c > b);
    assert_eq!(a.partial_cmp(&b), Some(std::cmp::Ordering::Equal));
    let z = StockInvestment::from_parts(0, p(1.0), p(0.0), p(1.0), p(1.0), p(1.0));
    let nz = StockInvestment::from_parts(0, p(1.0), p(-0.0), p(1.0), p(1.0), p(1.0));
    assert!(z == nz);
}

#[test]
fn heap_serves_highest_stop_loss_first() {
    let mut heap = PositionHeap::new();
    assert!(heap.is_empty());
    assert!(heap.peek().is_none());
    for stop in [30.0f32, 70.0, 10.0, 50.0, 70.0] {
        heap.push(position(0, 100.0, stop));
    }
    assert_eq!(heap.len(), 5);
    assert_eq!(f(heap.peek().unwrap().stop_loss()), 70.0);
    let mut order = vec![];
    while let Some(x) = heap.pop() {
        order.push(f(x.stop_loss()));
    }
    assert_eq!(order, vec![70.0, 70.0, 50.0, 30.0, 10.0]);
    assert!(heap.pop().is_none());
}

#[test]
fn heap_drain_and_copy_hold_everything() {
    let mut heap = PositionHeap::new();
    for stop in [3.0f32, 1.0, 2.0] {
        heap.push(position(0, 100.0, stop));
    }
    let mut copy: Vec<f32> = heap.to_vec().iter().map(|x| f(x.stop_loss())).collect();
    copy.sort_by(|a, b| a.partial_cmp(b).unwrap());
    assert_eq!(copy, vec![1.0, 2.0, 3.0]);
    assert_eq!(heap.len(), 3);
    let drained = heap.drain();
    assert_eq!(drained.len(), 3);
    assert!(heap.is_empty());
}

// ---------------------------------------------------------------- strategies

#[test]
fn dca_pays_out_once_per_period() {
    let mut dca = DollarCostAveragingLinear::new(1000.0f32.to_bits(), 30 * DAY, 2.0f32.to_bits());
    assert_eq!(dca.last_payout(), MIN_UTC_MILLIS);
    assert_eq!(dca.payouts(), 0);
    assert!(dca.can_fund());
    assert_eq!(dca.get_funds(&worst(JAN_3_2000, 1.0, 1.0)), 1000.0f32.to_bits());
    assert_eq!(dca.last_payout(), JAN_3_2000);
    // Not again at the same instant, nor within the period.
    assert_eq!(dca.get_funds(&worst(JAN_3_2000, 1.0, 1.0)), ZERO_BITS);
    assert_eq!(dca.get_funds(&worst(JAN_3_2000 + 30 * DAY, 1.0, 1.0)), ZERO_BITS);
    assert_eq!(dca.get_funds(&worst(JAN_3_2000 + 30 * DAY + 1, 1.0, 1.0)), 1000.0f32.to_bits());
    assert_eq!(dca.last_payout(), JAN_3_2000 + 30 * DAY + 1);
    assert_eq!(dca.payouts(), 2);
    assert_eq!(dca.invest_amount(), 1000.0f32.to_bits());
    assert_eq!(dca.invest_frequency(), 30 * DAY);
    assert!(dca.has_leverage());
    assert_eq!(f(dca.get_leverage()), 2.0);
}

#[test]
fn dca_with_nan_leverage_has_none() {
    let dca = DollarCostAveragingLinear::new(1.0f32.to_bits(), DAY, f32::NAN.to_bits());
    assert!(!dca.has_leverage());
}

#[test]
fn dca_cannot_fund_past_the_end_of_time() {
    let mut dca = DollarCostAveragingLinear::new(1.0f32.to_bits(), MAX_UTC_MILLIS, 1.0f32.to_bits());
    assert!(dca.can_fund());
    dca.get_funds(&worst(JAN_3_2000, 1.0, 1.0));
    assert_eq!(dca.payouts(), 1);
    assert!(!dca.can_fund());
}

#[test]
fn dca_leaves_positions_alone() {
    let mut dca = DollarCostAveragingLinear::new(1.0f32.to_bits(), DAY, 1.0f32.to_bits());
    let mut heap = PositionHeap::new();
    heap.push(position(0, 100.0, 40.0));
    dca.inspect_positions(&mut heap, &worst(DAY, 200.0, 150.0));
    assert_eq!(f(heap.peek().unwrap().stop_loss()), 40.0);
    assert_eq!(f(heap.peek().unwrap().max_price()), 100.0);
}

#[test]
fn percentage_generator_takes_only_zero_to_hundred() {
    assert!(PercentageMaxGenerator::try_new(0.0f32.to_bits()).is_none());
    assert!(PercentageMaxGenerator::try_new((-0.0f32).to_bits()).is_none());
    assert!(PercentageMaxGenerator::try_new((-5.0f32).to_bits()).is_none());
    assert!(PercentageMaxGenerator::try_new(100.5f32.to_bits()).is_none());
    assert!(PercentageMaxGenerator::try_new(f32::NAN.to_bits()).is_none());
    assert!(PercentageMaxGenerator::try_new(f32::INFINITY.to_bits()).is_none());
    let g = PercentageMaxGenerator::try_new(20.0f32.to_bits()).unwrap();
    assert_eq!(f(g.percentage()), 20.0);
    assert!(PercentageMaxGenerator::try_new(100.0f32.to_bits()).is_some());
    assert!(PercentageMaxGenerator::try_new(1.0e-45f32.to_bits()).is_some());
}

#[test]
fn ramp_starts_at_first_quote() {
    let mut tv = TimeVariantPercentage::new(p(10.0), p(50.0), 10 * DAY);
    assert_eq!(tv.start_date(), None);
    assert!(tv.is_in_ramp_duration(&worst(JAN_3_2000, 1.0, 1.0)));
    assert_eq!(tv.start_date(), Some(JAN_3_2000));
    assert!(tv.is_in_ramp_duration(&worst(JAN_3_2000 + 9 * DAY, 1.0, 1.0)));
    assert!(!tv.is_in_ramp_duration(&worst(JAN_3_2000 + 10 * DAY, 1.0, 1.0)));
    assert_eq!(tv.start_date(), Some(JAN_3_2000));
    assert_eq!(f(tv.start_percentage()), 10.0);
    assert_eq!(f(tv.end_percentage()), 50.0);
    assert_eq!(tv.ramp_up(), 10 * DAY);
}

/// Proposes the current sell price minus a fixed margin, counting its calls.
struct FixedMargin {
    margin: f32,
    calls: usize,
}

impl Generator for FixedMargin {
    fn proposes(&self, p: Price, _t: i64, _action: StockInvestment, v: Price, next: Self) -> bool {
        v.bits() == (f(p) - self.margin).to_bits()
            && next.margin == self.margin
            && next.calls == self.calls + 1
    }

    fn generate<S: Stock>(&mut self, current_stock: &S, _action: &StockInvestment) -> Price {
        self.calls += 1;
        p(f(current_stock.get_sell_price()) - self.margin)
    }
}

#[test]
fn trailing_stop_moves_only_on_new_highs() {
    let dca = DollarCostAveragingLinear::new(1.0f32.to_bits(), DAY, 1.0f32.to_bits());
    let mut strat = DCAWithTrailingStopLoss::new(dca, FixedMargin { margin: 10.0, calls: 0 });
    let mut heap = PositionHeap::new();
    heap.push(position(0, 100.0, 50.0));
    heap.push(position(0, 200.0, 150.0));
    // 120 is a new high for the first position only.
    strat.inspect_positions(&mut heap, &worst(DAY, 130.0, 120.0));
    assert_eq!(strat.generator_.calls, 1);
    let mut stops: Vec<f32> = heap.to_vec().iter().map(|x| f(x.stop_loss())).collect();
    stops.sort_by(|a, b| a.partial_cmp(b).unwrap());
    assert_eq!(stops, vec![110.0, 150.0]);
    // A proposal below the wipeout price is refused.
    strat.generator_.margin = 100.0;
    strat.inspect_positions(&mut heap, &worst(2 * DAY, 130.0, 125.0));
    let mut stops: Vec<f32> = heap.to_vec().iter().map(|x| f(x.stop_loss())).collect();
    stops.sort_by(|a, b| a.partial_cmp(b).unwrap());
    assert_eq!(stops, vec![110.0, 150.0]);
    assert_eq!(heap.len(), 2);
}

#[test]
fn trailing_strategy_records_returned_funds() {
    let dca = DollarCostAveragingLinear::new(5.0f32.to_bits(), DAY, 3.0f32.to_bits());
    let mut strat = DCAWithTrailingStopLoss::new(dca, FixedMargin { margin: 1.0, calls: 0 });
    strat.return_funds(1.5f32.to_bits());
    strat.return_funds(2.5f32.to_bits());
    assert_eq!(strat.returned_funds(), &vec![1.5f32.to_bits(), 2.5f32.to_bits()]);
    assert_eq!(strat.get_funds(&worst(JAN_3_2000, 1.0, 1.0)), 5.0f32.to_bits());
    assert_eq!(strat.internal_strat_.payouts(), 1);
    assert!(strat.can_fund());
    assert!(strat.has_leverage());
    assert_eq!(f(strat.get_leverage()), 3.0);
}

// ---------------------------------------------------------------- simulation

#[test]
fn stop_losses_close_from_the_top_down() {
    let dca = DollarCostAveragingLinear::new(1.0f32.to_bits(), DAY, 1.0f32.to_bits());
    let mut sim = Simulation::new(dca);
    for stop in [10.0f32, 40.0, 20.0, 30.0] {
        sim.open_position(position(0, 100.0, stop));
    }
    let removed = sim.remove_stop_losses(&worst(DAY, 100.0, 25.0));
    let closed: Vec<f32> = removed.iter().map(|x| f(x.stop_loss())).collect();
    assert_eq!(closed, vec![40.0, 30.0]);
    let mut open: Vec<f32> = sim.positions().iter().map(|x| f(x.stop_loss())).collect();
    open.sort_by(|a, b| a.partial_cmp(b).unwrap());
    assert_eq!(open, vec![10.0, 20.0]);
    assert!(sim.remove_stop_losses(&worst(DAY, 100.0, 20.0)).is_empty());
    assert_eq!(sim.remove_stop_losses(&worst(DAY, 100.0, 0.0)).len(), 2);
    assert!(sim.positions().is_empty());
}

#[test]
fn simulation_asks_its_strategy() {
    let dca = DollarCostAveragingLinear::new(7.0f32.to_bits(), DAY, 1.0f32.to_bits());
    let mut sim = Simulation::new(dca);
    assert_eq!(sim.get_funds(&worst(JAN_3_2000, 1.0, 1.0)), 7.0f32.to_bits());
    assert_eq!(sim.strategy().payouts(), 1);
    sim.open_position(position(0, 100.0, 50.0));
    sim.adjust_positions(&worst(DAY, 500.0, 400.0));
    assert_eq!(sim.positions().len(), 1);
}

// ---------------------------------------------------------------- laws on values

#[test]
fn same_quote_twice_changes_nothing() {
    let mut inv = position(0, 100.0, 50.0);
    let quote = worst(DAY, 200.0, 130.0);
    assert!(inv.eval(&quote));
    let once = inv;
    assert!(!inv.eval(&quote));
    assert_eq!(f(inv.max_price()), f(once.max_price()));
    assert_eq!(inv.max_at(), once.max_at());
    assert_eq!(f(inv.min_price()), f(once.min_price()));
    assert_eq!(inv.min_at(), once.min_at());
}

#[test]
fn second_removal_at_same_price_closes_nothing() {
    let dca = DollarCostAveragingLinear::new(1.0f32.to_bits(), DAY, 1.0f32.to_bits());
    let mut sim = Simulation::new(dca);
    for stop in [5.0f32, 15.0, 25.0] {
        sim.open_position(position(0, 100.0, stop));
    }
    let quote = worst(DAY, 100.0, 12.0);
    assert_eq!(sim.remove_stop_losses(&quote).len(), 2);
    assert!(sim.remove_stop_losses(&quote).is_empty());
    assert_eq!(sim.positions().len(), 1);
}

#[test]
fn wipeout_closes_even_a_raised_stop() {
    let mut inv = position(0, 100.0, 50.0);
    inv.set_stop_loss(p(60.0)).unwrap();
    let crash = worst(DAY, 100.0, 45.0);
    assert!(inv.will_wipeout(&crash));
    assert!(inv.will_cashout(&crash));
    assert!(inv.will_cashout(&worst(DAY, 100.0, 55.0)));
    assert!(!inv.will_wipeout(&worst(DAY, 100.0, 55.0)));
}

/// Drives the library through three days as a simulation run does, with
/// the money kept in `f32` here.
#[test]
fn three_days_of_leveraged_buying() {
    let dca = DollarCostAveragingLinear::new(1000.0f32.to_bits(), DAY, 2.0f32.to_bits());
    let mut sim = Simulation::new(dca);
    let days = [worst(0, 100.0, 90.0), worst(2 * DAY, 110.0, 60.0), worst(4 * DAY, 80.0, 70.0)];
    let mut funds = 0.0f32;
    let mut closed = 0;
    for item in &days {
        assert!(sim.strategy().can_fund());
        funds += f32::from_bits(sim.get_funds(item));
        if funds > 0.0 {
            let buy = f(item.get_buy_price());
            let lev = f(sim.strategy().get_leverage());
            let inv = StockInvestment::from_parts(
                item.get_time(),
                p(buy),
                p(buy - buy / lev),
                p(funds / buy * lev),
                p(funds),
                p(lev),
            );
            sim.open_position(inv);
            funds = 0.0;
        }
        closed += sim.remove_stop_losses(item).len();
        sim.adjust_positions(item);
    }
    // Day 0 buys at 100 (stop 50); day 2 buys at 110 (stop 55) and its low of
    // 60 closes nothing; day 4 buys at 80 (stop 40) and its low of 70 keeps
    // all three open.
    assert_eq!(closed, 0);
    assert_eq!(sim.strategy().payouts(), 3);
    let mut stops: Vec<f32> = sim.positions().iter().map(|x| f(x.stop_loss())).collect();
    stops.sort_by(|a, b| a.partial_cmp(b).unwrap());
    assert_eq!(stops, vec![40.0, 50.0, 55.0]);
}

#[test]
fn parsed_rows_convert_on_given_values() {
    let d = from_parsed(Some(JAN_3_2000), 1.0f32.to_bits(), 2.0f32.to_bits(), 0.5f32.to_bits(), 1.5f32.to_bits())
        .unwrap();
    assert_eq!(d.date(), JAN_3_2000);
    assert_eq!(f(d.open()), 1.0);
    assert_eq!(f(d.high()), 2.0);
    assert_eq!(f(d.low()), 0.5);
    assert_eq!(f(d.close()), 1.5);
    assert_eq!(
        from_parsed(None, f32::NAN.to_bits(), 0, 0, 0).unwrap_err(),
        SandPConversionError::ParseError
    );
    assert_eq!(
        from_parsed(Some(0), 0, 0, 0, f32::NAN.to_bits()).unwrap_err(),
        SandPConversionError::IsNaNError
    );
}

#[test]
fn spaces_are_stripped() {
    assert_eq!(strip_spaces(" 01/03/2000, 1469.25 ,1478 "), "01/03/2000,1469.25,1478");
    assert_eq!(strip_spaces(""), "");
    assert_eq!(strip_spaces("   "), "");
    assert_eq!(strip_spaces("é \tü"), "é\tü");
}

#[test]
fn payouts_over_a_run_sum_to_the_answers() {
    let mut dca = DollarCostAveragingLinear::new(250.0f32.to_bits(), 10 * DAY, 1.0f32.to_bits());
    let mut sum = 0.0f32;
    let mut last_paid: Option<i64> = None;
    for k in 0..40i64 {
        let now = JAN_3_2000 + k * 3 * DAY;
        let a = dca.get_funds(&worst(now, 1.0, 1.0));
        assert!(a == 250.0f32.to_bits() || a == ZERO_BITS);
        if a != ZERO_BITS {
            if let Some(prev) = last_paid {
                assert!(now - prev > 10 * DAY);
            }
            last_paid = Some(now);
        }
        sum += f32::from_bits(a);
    }
    assert_eq!(sum, 250.0 * dca.payouts() as f32);
}

#[test]
fn returning_funds_keeps_the_generator() {
    let dca = DollarCostAveragingLinear::new(1.0f32.to_bits(), DAY, 1.0f32.to_bits());
    let mut strat = DCAWithTrailingStopLoss::new(dca, FixedMargin { margin: 3.0, calls: 2 });
    strat.return_funds(4.0f32.to_bits());
    assert_eq!(strat.generator_.margin, 3.0);
    assert_eq!(strat.generator_.calls, 2);
}

#[test]
fn trailing_stop_takes_the_proposal_exactly() {
    let dca = DollarCostAveragingLinear::new(1.0f32.to_bits(), DAY, 1.0f32.to_bits());
    let mut strat = DCAWithTrailingStopLoss::new(dca, FixedMargin { margin: 7.5, calls: 0 });
    let mut heap = PositionHeap::new();
    heap.push(position(0, 100.0, 50.0));
    strat.inspect_positions(&mut heap, &worst(DAY, 200.0, 180.0));
    let p0 = heap.peek().unwrap();
    assert_eq!(f(p0.stop_loss()), 172.5);
    assert_eq!(f(p0.max_price()), 180.0);
    assert_eq!(strat.generator_.calls, 1);
    // No new high: the generator is not asked.
    strat.inspect_positions(&mut heap, &worst(2 * DAY, 200.0, 175.0));
    assert_eq!(strat.generator_.calls, 1);
}

#[test]
fn generator_proposal_meets_its_relation() {
    let inv = position(0, 100.0, 50.0);
    let quote = worst(DAY, 200.0, 180.0);
    let before = FixedMargin { margin: 7.5, calls: 4 };
    let mut g = FixedMargin { margin: 7.5, calls: 4 };
    let v = g.generate(&quote, &inv);
    assert!(before.proposes(quote.get_sell_price(), quote.get_time(), inv, v, g));
    assert_eq!(f(v), 172.5);
}
