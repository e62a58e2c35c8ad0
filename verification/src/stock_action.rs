//! Securities, and the leveraged position held in one.

use vstd::prelude::*;
use std::cmp::Ordering;
use vstd::std_specs::cmp::PartialEqSpecImpl;
use vstd::std_specs::cmp::PartialOrdSpecImpl;
use vstd::std_specs::cmp::PartialEqSpec;
use vstd::std_specs::cmp::PartialOrdSpec;
use crate::price::Price;
use crate::time::in_time_range;

verus! {

/// Why an action on a position failed.
#[derive(Clone, Copy, Debug, PartialEq, Eq, Structural)]
pub enum StockActionFailure {
    UnderWipeout,
    Other,
}

/// A quote of a security at one instant.
pub trait Stock {
    /// The instant of the quote.
    spec fn spec_time(&self) -> i64;

    /// The price at which the security is bought.
    spec fn spec_buy_price(&self) -> Price;

    /// The price at which the security is sold.
    spec fn spec_sell_price(&self) -> Price;

    fn get_time(&self) -> (t: i64)
        ensures
            t == self.spec_time(),
            in_time_range(t as int),
    ;

    fn get_buy_price(&self) -> (p: Price)
        ensures
            p == self.spec_buy_price(),
    ;

    fn get_sell_price(&self) -> (p: Price)
        ensures
            p == self.spec_sell_price(),
    ;
}

/// Why a stop loss could not be set.
#[derive(Clone, Copy, Debug, PartialEq, Eq, Structural)]
#[non_exhaustive]
pub enum StopLossFailure {
    UnderWipeout,
    WillImmediatelyCashOut,
}

/// Something with a single price: for a stock, the price it sells at.
pub trait BuyableSecurity {
    spec fn spec_price(&self) -> Price;

    fn get_price(&self) -> (p: Price)
        ensures
            p == self.spec_price(),
    ;
}

impl<T: Stock> BuyableSecurity for T {
    open spec fn spec_price(&self) -> Price {
        self.spec_sell_price()
    }

    fn get_price(&self) -> (p: Price) {
        self.get_sell_price()
    }
}

/// What can be done to a position as the market moves.
pub trait StockAction<T: Stock>: Sized {
    /// Records the current quote; returns whether it set a new highest price.
    fn eval(&mut self, stock: &T) -> bool;

    /// Whether the position is lost entirely at the current quote.
    fn will_wipeout(&self, current_stock: &T) -> bool;

    /// Whether the position is closed at the current quote.
    fn will_cashout(&self, current_stock: &T) -> bool;

    /// Moves the stop loss, unless it would lie below the wipeout price.
    fn set_stop_loss(&mut self, amount: Price) -> Result<(), StopLossFailure>;
}

/// A leveraged long position in a security.
///
/// The stop loss never lies below the wipeout price, and the lowest and
/// highest prices seen since the purchase enclose the purchase price.
#[derive(Clone, Copy, Debug)]
pub struct StockInvestment {
    stop_loss: Price,
    unit: Price,
    invested: Price,
    invested_at: i64,
    invested_at_price: Price,
    wipeout_at: Price,
    leverage: Price,
    max_price: Price,
    max_at: i64,
    min_price: Price,
    min_at: i64,
}

impl StockInvestment {
    #[verifier::type_invariant]
    spec fn well_ordered(self) -> bool {
        &&& self.wipeout_at.key() <= self.stop_loss.key()
        &&& self.min_price.key() <= self.invested_at_price.key()
        &&& self.invested_at_price.key() <= self.max_price.key()
    }

    pub closed spec fn spec_stop_loss(self) -> Price {
        self.stop_loss
    }

    pub closed spec fn spec_unit(self) -> Price {
        self.unit
    }

    pub closed spec fn spec_invested(self) -> Price {
        self.invested
    }

    pub closed spec fn spec_invested_at(self) -> i64 {
        self.invested_at
    }

    pub closed spec fn spec_invested_at_price(self) -> Price {
        self.invested_at_price
    }

    pub closed spec fn spec_wipeout_at(self) -> Price {
        self.wipeout_at
    }

    pub closed spec fn spec_leverage(self) -> Price {
        self.leverage
    }

    pub closed spec fn spec_max_price(self) -> Price {
        self.max_price
    }

    pub closed spec fn spec_max_at(self) -> i64 {
        self.max_at
    }

    pub closed spec fn spec_min_price(self) -> Price {
        self.min_price
    }

    pub closed spec fn spec_min_at(self) -> i64 {
        self.min_at
    }

    /// The key by which positions are ordered: that of the stop loss.
    pub open spec fn order(self) -> int {
        self.spec_stop_loss().key()
    }

    /// Whether the position is lost entirely at `price`.
    pub open spec fn wiped_out_at(self, price: Price) -> bool {
        self.spec_wipeout_at().key() > price.key()
    }

    /// Whether the position is closed at `price`.
    pub open spec fn cashes_out_at(self, price: Price) -> bool {
        self.wiped_out_at(price) || self.spec_stop_loss().key() > price.key()
    }

    /// Whether the stop loss lies at or above the wipeout price (which every
    /// position keeps).
    pub open spec fn stop_covers_wipeout(self) -> bool {
        self.spec_wipeout_at().key() <= self.order()
    }

    /// Whether `other` agrees with `self` on everything but the stop loss.
    pub open spec fn same_but_stop_loss(self, other: Self) -> bool {
        &&& other.spec_unit() == self.spec_unit()
        &&& other.spec_invested() == self.spec_invested()
        &&& other.spec_invested_at() == self.spec_invested_at()
        &&& other.spec_invested_at_price() == self.spec_invested_at_price()
        &&& other.spec_wipeout_at() == self.spec_wipeout_at()
        &&& other.spec_leverage() == self.spec_leverage()
        &&& other.spec_max_price() == self.spec_max_price()
        &&& other.spec_max_at() == self.spec_max_at()
        &&& other.spec_min_price() == self.spec_min_price()
        &&& other.spec_min_at() == self.spec_min_at()
    }

    /// Whether `next` is `self` after recording a sell price `p` quoted at
    /// `t`: a price below the lowest seen becomes the lowest, else a price
    /// above the highest seen becomes the highest; nothing else changes.
    pub open spec fn seen(self, p: Price, t: i64, next: Self) -> bool {
        &&& self.same_but_extremes(next)
        &&& if p.key() < self.spec_min_price().key() {
            &&& next.spec_min_price() == p
            &&& next.spec_min_at() == t
            &&& next.spec_max_price() == self.spec_max_price()
            &&& next.spec_max_at() == self.spec_max_at()
        } else if p.key() > self.spec_max_price().key() {
            &&& next.spec_max_price() == p
            &&& next.spec_max_at() == t
            &&& next.spec_min_price() == self.spec_min_price()
            &&& next.spec_min_at() == self.spec_min_at()
        } else {
            &&& next.spec_max_price() == self.spec_max_price()
            &&& next.spec_max_at() == self.spec_max_at()
            &&& next.spec_min_price() == self.spec_min_price()
            &&& next.spec_min_at() == self.spec_min_at()
        }
    }

    /// Whether `other` agrees with `self` on everything but the lowest and
    /// highest prices seen and their instants.
    pub open spec fn same_but_extremes(self, other: Self) -> bool {
        &&& other.spec_stop_loss() == self.spec_stop_loss()
        &&& other.spec_unit() == self.spec_unit()
        &&& other.spec_invested() == self.spec_invested()
        &&& other.spec_invested_at() == self.spec_invested_at()
        &&& other.spec_invested_at_price() == self.spec_invested_at_price()
        &&& other.spec_wipeout_at() == self.spec_wipeout_at()
        &&& other.spec_leverage() == self.spec_leverage()
    }

    /// Opens a position bought at `time` for `price`, whose stop loss starts
    /// at its wipeout price `stop_loss`.  The arithmetic that yields
    /// `stop_loss`, `unit` and the rest is the caller's.
    pub fn from_parts(
        time: i64,
        price: Price,
        stop_loss: Price,
        unit: Price,
        invested: Price,
        leverage: Price,
    ) -> (r: StockInvestment)
        ensures
            r.spec_stop_loss() == stop_loss,
            r.spec_wipeout_at() == stop_loss,
            r.spec_unit() == unit,
            r.spec_invested() == invested,
            r.spec_invested_at() == time,
            r.spec_invested_at_price() == price,
            r.spec_leverage() == leverage,
            r.spec_max_price() == price,
            r.spec_max_at() == time,
            r.spec_min_price() == price,
            r.spec_min_at() == time,
    {
        StockInvestment {
            stop_loss,
            unit,
            invested,
            invested_at: time,
            invested_at_price: price,
            wipeout_at: stop_loss,
            leverage,
            max_price: price,
            max_at: time,
            min_price: price,
            min_at: time,
        }
    }

    /// Whether the position is lost entirely at `price`.
    fn will_wipeout_(&self, price: Price) -> (r: bool)
        ensures
            r == self.wiped_out_at(price),
    {
        self.wipeout_at.greater_than(&price)
    }

    pub fn stop_loss(&self) -> (p: Price)
        ensures
            p == self.spec_stop_loss(),
    {
        self.stop_loss
    }

    pub fn unit(&self) -> (p: Price)
        ensures
            p == self.spec_unit(),
    {
        self.unit
    }

    pub fn invested(&self) -> (p: Price)
        ensures
            p == self.spec_invested(),
    {
        self.invested
    }

    pub fn invested_at(&self) -> (t: i64)
        ensures
            t == self.spec_invested_at(),
    {
        self.invested_at
    }

    /// The price the position was bought at.
    pub fn get_original_price(&self) -> (p: Price)
        ensures
            p == self.spec_invested_at_price(),
    {
        self.invested_at_price
    }

    pub fn wipeout_at(&self) -> (p: Price)
        ensures
            p == self.spec_wipeout_at(),
    {
        self.wipeout_at
    }

    pub fn leverage(&self) -> (p: Price)
        ensures
            p == self.spec_leverage(),
    {
        self.leverage
    }

    pub fn max_price(&self) -> (p: Price)
        ensures
            p == self.spec_max_price(),
    {
        self.max_price
    }

    pub fn max_at(&self) -> (t: i64)
        ensures
            t == self.spec_max_at(),
    {
        self.max_at
    }

    pub fn min_price(&self) -> (p: Price)
        ensures
            p == self.spec_min_price(),
    {
        self.min_price
    }

    pub fn min_at(&self) -> (t: i64)
        ensures
            t == self.spec_min_at(),
    {
        self.min_at
    }

    /// Moves the stop loss to `amount`, unless the position would be wiped
    /// out there.
    pub fn set_stop_loss(&mut self, amount: Price) -> (r: Result<(), StopLossFailure>)
        ensures
            r is Err <==> old(self).wiped_out_at(amount),
            r is Err ==> r == Err::<(), StopLossFailure>(StopLossFailure::UnderWipeout),
            r is Err ==> *final(self) == *old(self),
            r is Ok ==> final(self).spec_stop_loss() == amount,
            old(self).same_but_stop_loss(*final(self)),
    {
        proof {
            use_type_invariant(&*self);
        }
        if self.will_wipeout_(amount) {
            return Err(StopLossFailure::UnderWipeout);
        } else {
            self.stop_loss = amount;
        }
        Ok(())
    }

    /// The orderings a position always keeps: stop loss at or above the
    /// wipeout price, and lowest price <= purchase price <= highest price.
    pub fn keeps_order(&self)
        ensures
            self.spec_wipeout_at().key() <= self.spec_stop_loss().key(),
            self.spec_min_price().key() <= self.spec_invested_at_price().key(),
            self.spec_invested_at_price().key() <= self.spec_max_price().key(),
    {
        proof {
            use_type_invariant(self);
        }
    }
}

/// A position that cashes out at some price cashes out at every lower price.
pub proof fn lemma_cashout_below(inv: StockInvestment, p: Price, q: Price)
    requires
        inv.cashes_out_at(p),
        q.key() <= p.key(),
    ensures
        inv.cashes_out_at(q),
{
}

/// Recording the same quote twice changes nothing the second time: the second
/// recording sets no new high and leaves the position as the first left it.
pub proof fn lemma_seen_twice(
    a: StockInvestment,
    p: Price,
    t: i64,
    b: StockInvestment,
    c: StockInvestment,
)
    requires
        a.spec_min_price().key() <= a.spec_max_price().key(),
        a.seen(p, t, b),
        b.seen(p, t, c),
    ensures
        c == b,
        !(p.key() > b.spec_max_price().key()),
{
}

/// Two positions are equal exactly when they compare as neither less nor
/// greater: both orders go by the stop loss alone.
pub proof fn lemma_eq_agrees_with_order(a: StockInvestment, b: StockInvestment)
    ensures
        PartialEqSpec::eq_spec(&a, &b) <==> PartialOrdSpec::partial_cmp_spec(&a, &b) == Some(
            Ordering::Equal,
        ),
        PartialOrdSpec::partial_cmp_spec(&a, &b) == Some(Ordering::Less)
            <==> PartialOrdSpec::partial_cmp_spec(&b, &a) == Some(Ordering::Greater),
{
}

/// Positions compare exactly as their stop losses do, and by nothing else:
/// equal when the stop losses are equal, less or greater when the stop loss
/// is lower or higher, whatever the wipeout, purchase or extreme prices.
pub proof fn lemma_positions_compare_by_stop_loss(a: StockInvestment, b: StockInvestment)
    ensures
        PartialEqSpec::eq_spec(&a, &b) <==> a.spec_stop_loss().key() == b.spec_stop_loss().key(),
        PartialOrdSpec::partial_cmp_spec(&a, &b) == Some(Ordering::Less) <==> a.spec_stop_loss().key()
            < b.spec_stop_loss().key(),
        PartialOrdSpec::partial_cmp_spec(&a, &b) == Some(Ordering::Equal)
            <==> a.spec_stop_loss().key() == b.spec_stop_loss().key(),
        PartialOrdSpec::partial_cmp_spec(&a, &b) == Some(Ordering::Greater)
            <==> a.spec_stop_loss().key() > b.spec_stop_loss().key(),
{
}

impl<T: Stock> StockAction<T> for StockInvestment {
    fn eval(&mut self, stock: &T) -> (r: bool)
        ensures
            old(self).seen(stock.spec_sell_price(), stock.spec_time(), *final(self)),
            r == (stock.spec_sell_price().key() > old(self).spec_max_price().key()),
    {
        proof {
            use_type_invariant(&*self);
        }
        let price = stock.get_sell_price();
        if price.less_than(&self.min_price) {
            self.min_price = price;
            self.min_at = stock.get_time();
            false
        } else if price.greater_than(&self.max_price) {
            self.max_price = price;
            self.max_at = stock.get_time();
            true
        } else {
            false
        }
    }

    fn will_wipeout(&self, current_stock: &T) -> (r: bool)
        ensures
            r == self.wiped_out_at(current_stock.spec_sell_price()),
    {
        self.will_wipeout_(current_stock.get_sell_price())
    }

    fn will_cashout(&self, current_stock: &T) -> (r: bool)
        ensures
            r == self.cashes_out_at(current_stock.spec_sell_price()),
            r == (self.spec_stop_loss().key() > current_stock.spec_sell_price().key()),
    {
        proof {
            use_type_invariant(self);
        }
        self.will_wipeout(current_stock) || self.stop_loss.greater_than(
            &current_stock.get_sell_price(),
        )
    }

    /// As the inherent method: moves the stop loss to `amount`, unless the
    /// position would be wiped out there.
    fn set_stop_loss(&mut self, amount: Price) -> (r: Result<(), StopLossFailure>)
        ensures
            r is Err <==> old(self).wiped_out_at(amount),
            r is Err ==> r == Err::<(), StopLossFailure>(StopLossFailure::UnderWipeout),
            r is Err ==> *final(self) == *old(self),
            r is Ok ==> final(self).spec_stop_loss() == amount,
            old(self).same_but_stop_loss(*final(self)),
    {
        StockInvestment::set_stop_loss(self, amount)
    }
}

impl PartialEq for StockInvestment {
    fn eq(&self, other: &Self) -> (r: bool) {
        self.stop_loss.same_value(&other.stop_loss)
    }
}

impl Eq for StockInvestment {
}

impl PartialEqSpecImpl for StockInvestment {
    open spec fn obeys_eq_spec() -> bool {
        true
    }

    open spec fn eq_spec(&self, other: &Self) -> bool {
        self.order() == other.order()
    }
}

impl PartialOrd for StockInvestment {
    fn partial_cmp(&self, other: &Self) -> (r: Option<Ordering>) {
        if self.stop_loss.less_than(&other.stop_loss) {
            Some(Ordering::Less)
        } else if self.stop_loss.greater_than(&other.stop_loss) {
            Some(Ordering::Greater)
        } else {
            Some(Ordering::Equal)
        }
    }
}

impl PartialOrdSpecImpl for StockInvestment {
    open spec fn obeys_partial_cmp_spec() -> bool {
        true
    }

    open spec fn partial_cmp_spec(&self, other: &Self) -> Option<Ordering> {
        if self.order() < other.order() {
            Some(Ordering::Less)
        } else if self.order() > other.order() {
            Some(Ordering::Greater)
        } else {
            Some(Ordering::Equal)
        }
    }
}

} // verus!
