//! Investment strategies and the simulation that runs them over a history.

use vstd::prelude::*;
use vstd::multiset::Multiset;
use crate::positions::PositionHeap;
use crate::price::{Price, ZERO_BITS, is_nan_bits};
use crate::stock_action::{Stock, StockAction, StockInvestment};
use crate::time::{MIN_UTC_MILLIS, add_span, in_time_range};

verus! {

broadcast use vstd::seq_lib::group_to_multiset_ensures, vstd::multiset::group_multiset_axioms;

/// Invests a fixed amount each time a fixed span has passed since the last
/// payout, at a fixed leverage.
///
/// Amounts and leverage are `f32` bit patterns.  The running total invested
/// is the amount added to itself once per payout, so the strategy keeps the
/// number of payouts and leaves the summing to the caller.
#[derive(Clone, Copy, Debug)]
pub struct DollarCostAveragingLinear {
    invest_amount: u32,
    invest_frequency: i64,
    last_payout: i64,
    payouts: u64,
    leverage: u32,
}

impl DollarCostAveragingLinear {
    pub closed spec fn spec_invest_amount(self) -> u32 {
        self.invest_amount
    }

    pub closed spec fn spec_invest_frequency(self) -> i64 {
        self.invest_frequency
    }

    pub closed spec fn spec_last_payout(self) -> i64 {
        self.last_payout
    }

    pub closed spec fn spec_payouts(self) -> u64 {
        self.payouts
    }

    pub closed spec fn spec_leverage_bits(self) -> u32 {
        self.leverage
    }

    /// Whether a payout is due at `now`: strictly more than the frequency has
    /// passed since the last one.
    pub open spec fn due_at(self, now: i64) -> bool {
        self.spec_last_payout() + self.spec_invest_frequency() < now
    }

    /// A strategy that has never paid out: its last payout is the earliest
    /// representable instant.
    pub fn new(invest_amount: u32, invest_frequency: i64, leverage: u32) -> (r: Self)
        ensures
            r.spec_invest_amount() == invest_amount,
            r.spec_invest_frequency() == invest_frequency,
            r.spec_last_payout() == MIN_UTC_MILLIS,
            r.spec_payouts() == 0,
            r.spec_leverage_bits() == leverage,
    {
        DollarCostAveragingLinear {
            invest_amount,
            invest_frequency,
            last_payout: MIN_UTC_MILLIS,
            payouts: 0,
            leverage,
        }
    }

    pub fn invest_amount(&self) -> (a: u32)
        ensures
            a == self.spec_invest_amount(),
    {
        self.invest_amount
    }

    pub fn invest_frequency(&self) -> (d: i64)
        ensures
            d == self.spec_invest_frequency(),
    {
        self.invest_frequency
    }

    pub fn last_payout(&self) -> (t: i64)
        ensures
            t == self.spec_last_payout(),
    {
        self.last_payout
    }

    /// How many times the strategy has paid out; the total invested is the
    /// amount summed that many times.
    pub fn payouts(&self) -> (n: u64)
        ensures
            n == self.spec_payouts(),
    {
        self.payouts
    }
}

/// Payouts are more than a period apart: a strategy whose last payout was at
/// `t` is next due only at an instant more than its frequency after `t`.
pub proof fn lemma_payouts_spaced(s: DollarCostAveragingLinear, t: i64, later: i64)
    requires
        s.spec_last_payout() == t,
        s.due_at(later),
    ensures
        later - t > s.spec_invest_frequency(),
{
}

/// A strategy's leverage is usable exactly when its bit pattern is a number
/// in the IEEE-754 sense (not all exponent bits set with a nonzero fraction):
/// 1.0, 2.0 and every other positive, negative, zero or infinite leverage is,
/// only the NaNs are not.
pub proof fn lemma_leverage_defined_unless_nan(d: DollarCostAveragingLinear)
    ensures
        d.leverage_defined() <==> !((d.spec_leverage_bits() & 0x7f80_0000u32) == 0x7f80_0000u32
            && (d.spec_leverage_bits() & 0x007f_ffffu32) != 0u32),
        d.spec_leverage_bits() == 0x3f80_0000u32 ==> d.leverage_defined(),
        0 < d.spec_leverage_bits() < 0x7f80_0000u32 ==> d.leverage_defined(),
{
    crate::price::lemma_nan_is_ieee_nan(d.spec_leverage_bits());
}

/// How many of the first `k` requests for funds, made of the strategies `s`
/// at the instants `times`, found a payout due.
pub open spec fn due_count(s: Seq<DollarCostAveragingLinear>, times: Seq<i64>, k: nat) -> nat
    decreases k,
{
    if k == 0 {
        0
    } else {
        due_count(s, times, (k - 1) as nat) + if s[k - 1].due_at(times[k - 1]) {
            1nat
        } else {
            0nat
        }
    }
}

/// Whether `s` is the succession of states of a strategy asked for funds at
/// each of `times` in turn, answering `amounts`.
pub open spec fn funding_run(
    s: Seq<DollarCostAveragingLinear>,
    times: Seq<i64>,
    amounts: Seq<u32>,
) -> bool {
    &&& s.len() == times.len() + 1
    &&& amounts.len() == times.len()
    &&& forall|i: int| 0 <= i < times.len() ==> #[trigger] s[i].pays(times[i], amounts[i], s[i + 1])
}

proof fn lemma_funding_prefix(
    s: Seq<DollarCostAveragingLinear>,
    times: Seq<i64>,
    amounts: Seq<u32>,
    k: nat,
)
    requires
        funding_run(s, times, amounts),
        k <= times.len(),
    ensures
        s[k as int].spec_invest_amount() == s[0].spec_invest_amount(),
        s[k as int].spec_invest_frequency() == s[0].spec_invest_frequency(),
        s[k as int].spec_payouts() == s[0].spec_payouts() + due_count(s, times, k),
    decreases k,
{
    if k > 0 {
        lemma_funding_prefix(s, times, amounts, (k - 1) as nat);
        let i = k - 1;
        assert(s[i].pays(times[i], amounts[i], s[i + 1]));
    }
}

proof fn lemma_last_payout_kept(
    s: Seq<DollarCostAveragingLinear>,
    times: Seq<i64>,
    amounts: Seq<u32>,
    i: int,
    j: int,
)
    requires
        funding_run(s, times, amounts),
        0 <= i < j <= times.len(),
        s[i].due_at(times[i]),
        forall|k: int| i < k < j ==> !#[trigger] s[k].due_at(times[k]),
    ensures
        s[j].spec_last_payout() == times[i],
    decreases j - i,
{
    if j == i + 1 {
        assert(s[i].pays(times[i], amounts[i], s[i + 1]));
    } else {
        lemma_last_payout_kept(s, times, amounts, i, j - 1);
        let k = j - 1;
        assert(s[k].pays(times[k], amounts[k], s[k + 1]));
    }
}

/// Over any succession of requests for funds: each answer is the amount when
/// a payout was due and `0.0` otherwise; the payout count grows by the number
/// of requests that found one due (so, from a fresh strategy, the amount
/// summed once per payout is the sum of the answers); and each payout comes
/// more than the frequency after the one before it.
pub proof fn lemma_funding_run(
    s: Seq<DollarCostAveragingLinear>,
    times: Seq<i64>,
    amounts: Seq<u32>,
)
    requires
        funding_run(s, times, amounts),
    ensures
        forall|i: int|
            0 <= i < times.len() ==> #[trigger] amounts[i] == if s[i].due_at(times[i]) {
                s[0].spec_invest_amount()
            } else {
                ZERO_BITS
            },
        s[times.len() as int].spec_payouts() == s[0].spec_payouts() + due_count(
            s,
            times,
            times.len(),
        ),
        forall|i: int, j: int|
            #![trigger s[i].due_at(times[i]), s[j].due_at(times[j])]
            0 <= i < j < times.len() && s[i].due_at(times[i]) && s[j].due_at(times[j]) && (forall|
                k: int,
            |
                i < k < j ==> !#[trigger] s[k].due_at(times[k])) ==> times[j] - times[i]
                > s[0].spec_invest_frequency(),
{
    assert forall|i: int|
        0 <= i < times.len() implies #[trigger] amounts[i] == if s[i].due_at(times[i]) {
        s[0].spec_invest_amount()
    } else {
        ZERO_BITS
    } by {
        lemma_funding_prefix(s, times, amounts, i as nat);
        assert(s[i].pays(times[i], amounts[i], s[i + 1]));
    }
    lemma_funding_prefix(s, times, amounts, times.len());
    assert forall|i: int, j: int|
        #![trigger s[i].due_at(times[i]), s[j].due_at(times[j])]
        0 <= i < j < times.len() && s[i].due_at(times[i]) && s[j].due_at(times[j]) && (forall|
            k: int,
        |
            i < k < j ==> !#[trigger] s[k].due_at(times[k])) implies times[j] - times[i]
        > s[0].spec_invest_frequency() by {
        lemma_last_payout_kept(s, times, amounts, i, j);
        lemma_funding_prefix(s, times, amounts, j as nat);
    }
}

/// How a simulation is fed money and looks after its positions.
pub trait InvestmentStrategy: Sized {
    /// Whether `get_funds` can run: the instant it compares against is
    /// representable, and the payout count has room to grow.
    spec fn funds_defined(&self) -> bool;

    /// Whether the leverage is a number.
    spec fn leverage_defined(&self) -> bool;

    /// The leverage, as an `f32` bit pattern.
    spec fn spec_leverage(&self) -> u32;

    fn can_fund(&self) -> (r: bool)
        ensures
            r == self.funds_defined(),
    ;

    fn has_leverage(&self) -> (r: bool)
        ensures
            r == self.leverage_defined(),
    ;

    /// Whether asking for funds at `now` may yield `amount` and leave the
    /// strategy as `next`.
    spec fn pays(&self, now: i64, amount: u32, next: Self) -> bool;

    /// Whether looking after the positions `before` at a sell price `p`
    /// quoted at `t` may leave them as `after` and the strategy as `next`.
    spec fn adjusts(
        &self,
        before: Multiset<StockInvestment>,
        p: Price,
        t: i64,
        after: Multiset<StockInvestment>,
        next: Self,
    ) -> bool;

    /// The amount to invest now, as an `f32` bit pattern (`0.0` for none).
    fn get_funds<S: Stock>(&mut self, stock: &S) -> (amount: u32)
        requires
            old(self).funds_defined(),
        ensures
            old(self).pays(stock.spec_time(), amount, *final(self)),
            final(self).leverage_defined() == old(self).leverage_defined(),
            final(self).spec_leverage() == old(self).spec_leverage(),
    ;

    /// Adjusts the open positions to the current quote; none opens or closes.
    fn inspect_positions<S: Stock>(&mut self, positions: &mut PositionHeap, current_stock: &S)
        ensures
            old(self).adjusts(
                old(positions).contents(),
                current_stock.spec_sell_price(),
                current_stock.spec_time(),
                final(positions).contents(),
                *final(self),
            ),
            final(positions).contents().len() == old(positions).contents().len(),
            final(self).funds_defined() == old(self).funds_defined(),
            final(self).leverage_defined() == old(self).leverage_defined(),
            final(self).spec_leverage() == old(self).spec_leverage(),
    ;

    /// The leverage of new positions.
    fn get_leverage(&self) -> (p: Price)
        requires
            self.leverage_defined(),
        ensures
            p.spec_bits() == self.spec_leverage(),
    ;
}

impl InvestmentStrategy for DollarCostAveragingLinear {
    open spec fn funds_defined(&self) -> bool {
        &&& in_time_range(self.spec_last_payout() as int)
        &&& in_time_range(self.spec_last_payout() + self.spec_invest_frequency())
        &&& self.spec_payouts() < u64::MAX
    }

    open spec fn leverage_defined(&self) -> bool {
        !is_nan_bits(self.spec_leverage_bits())
    }

    open spec fn spec_leverage(&self) -> u32 {
        self.spec_leverage_bits()
    }

    /// A payout is due when strictly more than the frequency has passed
    /// since the last one; it pays the amount and makes now the last payout.
    open spec fn pays(&self, now: i64, amount: u32, next: Self) -> bool {
        &&& next.spec_invest_amount() == self.spec_invest_amount()
        &&& next.spec_invest_frequency() == self.spec_invest_frequency()
        &&& next.spec_leverage_bits() == self.spec_leverage_bits()
        &&& if self.due_at(now) {
            &&& amount == self.spec_invest_amount()
            &&& next.spec_last_payout() == now
            &&& next.spec_payouts() == self.spec_payouts() + 1
        } else {
            &&& amount == ZERO_BITS
            &&& next == *self
        }
    }

    /// Plain dollar-cost averaging leaves the positions alone.
    open spec fn adjusts(
        &self,
        before: Multiset<StockInvestment>,
        p: Price,
        t: i64,
        after: Multiset<StockInvestment>,
        next: Self,
    ) -> bool {
        after == before && next == *self
    }

    fn can_fund(&self) -> (r: bool) {
        self.payouts < u64::MAX && MIN_UTC_MILLIS <= self.last_payout && self.last_payout
            <= crate::time::MAX_UTC_MILLIS && {
            let sum = self.last_payout as i128 + self.invest_frequency as i128;
            MIN_UTC_MILLIS as i128 <= sum && sum <= crate::time::MAX_UTC_MILLIS as i128
        }
    }

    fn has_leverage(&self) -> (r: bool) {
        !crate::price::bits_are_nan(self.leverage)
    }

    fn get_funds<S: Stock>(&mut self, stock: &S) -> (amount: u32)
    {
        let current_time = stock.get_time();
        if add_span(self.last_payout, self.invest_frequency) < current_time {
            self.last_payout = current_time;
            self.payouts = self.payouts + 1;
            return self.invest_amount;
        }
        ZERO_BITS
    }

    fn inspect_positions<S: Stock>(&mut self, positions: &mut PositionHeap, current_stock: &S) {
    }

    fn get_leverage(&self) -> (p: Price) {
        Price::new(self.leverage).unwrap()
    }
}

/// Closing stop losses twice at the same sell price closes nothing the second
/// time: what the first pass leaves open does not cash out there, so a second
/// pass (whose closed positions all cash out and come from what was open)
/// closes none.
pub proof fn lemma_second_removal_is_empty(
    open: Multiset<StockInvestment>,
    price: Price,
    removed: Seq<StockInvestment>,
    left: Multiset<StockInvestment>,
)
    requires
        forall|q: StockInvestment| #[trigger] open.contains(q) ==> !q.cashes_out_at(price),
        removed.to_multiset().add(left) == open,
        forall|i: int| 0 <= i < removed.len() ==> #[trigger] removed[i].cashes_out_at(price),
    ensures
        removed.len() == 0,
{
    if removed.len() > 0 {
        assert(removed.to_multiset().contains(removed[0]));
        assert(open.contains(removed[0]));
    }
}

/// A simulation: a strategy and the positions it holds.  The cash between
/// trades is the caller's to keep, since adding up money is floating-point
/// work.
pub struct Simulation<Strat: InvestmentStrategy> {
    strategy: Strat,
    positions: PositionHeap,
}

impl<Strat: InvestmentStrategy> Simulation<Strat> {
    pub closed spec fn spec_strategy(self) -> Strat {
        self.strategy
    }

    /// The open positions.
    pub closed spec fn spec_positions(self) -> Multiset<StockInvestment> {
        self.positions.contents()
    }

    /// A simulation with no position yet.
    pub fn new(strategy: Strat) -> (r: Self)
        ensures
            r.spec_strategy() == strategy,
            r.spec_positions() =~= Multiset::empty(),
    {
        Simulation { strategy: strategy, positions: PositionHeap::new() }
    }

    /// The strategy.
    pub fn strategy(&self) -> (s: &Strat)
        ensures
            *s == self.spec_strategy(),
    {
        &self.strategy
    }

    /// A copy of the open positions.
    pub fn positions(&self) -> (r: Vec<StockInvestment>)
        ensures
            r@.to_multiset() == self.spec_positions(),
    {
        self.positions.to_vec()
    }

    /// Every open position has its stop loss at or above its wipeout price,
    /// and its lowest price seen at or below its highest.
    pub fn keeps_stop_above_wipeout(&self)
        ensures
            forall|q: StockInvestment| #[trigger]
                self.spec_positions().contains(q) ==> q.stop_covers_wipeout(),
            forall|q: StockInvestment| #[trigger]
                self.spec_positions().contains(q) ==> q.spec_min_price().key()
                    <= q.spec_max_price().key(),
    {
        self.positions.keeps_stop_above_wipeout();
    }

    /// Asks the strategy for the money to invest now.
    pub fn get_funds<S: Stock>(&mut self, stock: &S) -> (amount: u32)
        requires
            old(self).spec_strategy().funds_defined(),
        ensures
            old(self).spec_strategy().pays(stock.spec_time(), amount, final(self).spec_strategy()),
            final(self).spec_positions() == old(self).spec_positions(),
            final(self).spec_strategy().leverage_defined() == old(
                self,
            ).spec_strategy().leverage_defined(),
    {
        self.strategy.get_funds(stock)
    }

    /// Opens a position.
    pub fn open_position(&mut self, position: StockInvestment)
        ensures
            final(self).spec_positions() =~= old(self).spec_positions().insert(position),
            final(self).spec_strategy() == old(self).spec_strategy(),
    {
        self.positions.push(position);
    }

    /// Closes positions, highest stop loss first, for as long as the highest
    /// one cashes out at the current sell price; returns those closed, in the
    /// order closed.
    pub fn remove_stop_losses<S: Stock>(&mut self, current_stock: &S) -> (removed: Vec<
        StockInvestment,
    >)
        ensures
            removed@.to_multiset().add(final(self).spec_positions()) =~= old(
                self,
            ).spec_positions(),
            forall|i: int|
                0 <= i < removed@.len() ==> #[trigger] removed@[i].cashes_out_at(
                    current_stock.spec_sell_price(),
                ),
            forall|i: int, j: int|
                0 <= i <= j < removed@.len() ==> removed@[j].order() <= removed@[i].order(),
            forall|q: StockInvestment| #[trigger]
                final(self).spec_positions().contains(q) ==> !q.cashes_out_at(
                    current_stock.spec_sell_price(),
                ),
            forall|i: int, q: StockInvestment|
                #![trigger removed@[i], final(self).spec_positions().contains(q)]
                0 <= i < removed@.len() && final(self).spec_positions().contains(q) ==> q.order()
                    <= removed@[i].order(),
            final(self).spec_strategy() == old(self).spec_strategy(),
    {
        let ghost initial = self.positions.contents();
        let ghost price = current_stock.spec_sell_price();
        let mut removed: Vec<StockInvestment> = Vec::new();
        loop
            invariant_except_break
                removed@.to_multiset().add(self.positions.contents()) =~= initial,
                forall|i: int|
                    0 <= i < removed@.len() ==> #[trigger] removed@[i].cashes_out_at(price),
                forall|i: int, j: int|
                    0 <= i <= j < removed@.len() ==> removed@[j].order() <= removed@[i].order(),
                forall|i: int, q: StockInvestment|
                    #![trigger removed@[i], self.positions.contents().contains(q)]
                    0 <= i < removed@.len() && self.positions.contents().contains(q) ==> q.order()
                        <= removed@[i].order(),
                self.strategy == old(self).strategy,
                price == current_stock.spec_sell_price(),
            ensures
                removed@.to_multiset().add(self.positions.contents()) =~= initial,
                forall|i: int|
                    0 <= i < removed@.len() ==> #[trigger] removed@[i].cashes_out_at(price),
                forall|i: int, j: int|
                    0 <= i <= j < removed@.len() ==> removed@[j].order() <= removed@[i].order(),
                forall|q: StockInvestment| #[trigger]
                    self.positions.contents().contains(q) ==> !q.cashes_out_at(price),
                forall|i: int, q: StockInvestment|
                    #![trigger removed@[i], self.positions.contents().contains(q)]
                    0 <= i < removed@.len() && self.positions.contents().contains(q) ==> q.order()
                        <= removed@[i].order(),
                self.strategy == old(self).strategy,
            decreases self.positions.contents().len(),
        {
            let top = self.positions.peek();
            match top {
                None => {
                    break ;
                },
                Some(p) => {
                    if p.will_cashout(current_stock) {
                        let ghost before = self.positions.contents();
                        let popped = self.positions.pop();
                        match popped {
                            Some(q) => {
                                proof {
                                    assert(q.order() == p.order());
                                    assert(removed@.push(q).to_multiset() =~= removed@.to_multiset().insert(q));
                                    assert forall|r: StockInvestment| #[trigger]
                                        self.positions.contents().contains(r) implies before.contains(r) by {
                                        assert(self.positions.contents().count(r) <= before.count(r));
                                    }
                                }
                                removed.push(q);
                            },
                            None => {
                                break ;
                            },
                        }
                    } else {
                        self.positions.keeps_stop_above_wipeout();
                        break ;
                    }
                },
            }
        }
        removed
    }

    /// Lets the strategy adjust the open positions to the current quote.
    pub fn adjust_positions<S: Stock>(&mut self, current_stock: &S)
        ensures
            old(self).spec_strategy().adjusts(
                old(self).spec_positions(),
                current_stock.spec_sell_price(),
                current_stock.spec_time(),
                final(self).spec_positions(),
                final(self).spec_strategy(),
            ),
            final(self).spec_positions().len() == old(self).spec_positions().len(),
            final(self).spec_strategy().funds_defined() == old(
                self,
            ).spec_strategy().funds_defined(),
            final(self).spec_strategy().leverage_defined() == old(
                self,
            ).spec_strategy().leverage_defined(),
    {
        self.strategy.inspect_positions(&mut self.positions, current_stock);
    }
}

} // verus!
