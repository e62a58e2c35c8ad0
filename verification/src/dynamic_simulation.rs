//! Dollar-cost averaging with a trailing stop loss.

use vstd::prelude::*;
use vstd::multiset::Multiset;
use crate::positions::PositionHeap;
use crate::price::{HUNDRED_BITS, Price, order_key};
use crate::simulation::{DollarCostAveragingLinear, InvestmentStrategy};
use crate::stock_action::{Stock, StockAction, StockInvestment};
use crate::time::{add_span, in_time_range};

verus! {

broadcast use vstd::seq_lib::group_to_multiset_ensures, vstd::multiset::group_multiset_axioms;

/// Proposes a new stop loss for a position that has just reached a new high.
pub trait Generator: Sized {
    /// Whether, asked at a sell price `p` quoted at `t` about the position
    /// `action`, the generator may propose `v` and be left as `next`.
    spec fn proposes(&self, p: Price, t: i64, action: StockInvestment, v: Price, next: Self) -> bool;

    fn generate<S: Stock>(&mut self, current_stock: &S, action: &StockInvestment) -> (v: Price)
        ensures
            old(self).proposes(
                current_stock.spec_sell_price(),
                current_stock.spec_time(),
                *action,
                v,
                *final(self),
            ),
    ;
}

/// A trailing stop loss that keeps a fixed percentage of the gain since the
/// purchase.  The percentage lies in `(0, 100]`.
#[derive(Clone, Copy, Debug)]
pub struct PercentageMaxGenerator {
    percentage: Price,
}

impl PercentageMaxGenerator {
    pub closed spec fn spec_percentage(self) -> Price {
        self.percentage
    }

    /// A generator keeping `val` percent (an `f32` bit pattern) of the gain;
    /// `None` unless `0 < val <= 100`.
    pub fn try_new(val: u32) -> (r: Option<Self>)
        ensures
            r is Some <==> 0 < order_key(val) <= order_key(HUNDRED_BITS),
            r matches Some(g) ==> g.spec_percentage().spec_bits() == val,
    {
        let k = crate::price::key_of_bits(val);
        let hundred = crate::price::key_of_bits(HUNDRED_BITS);
        if 0 < k && k <= hundred {
            match Price::new(val) {
                Some(p) => Some(PercentageMaxGenerator { percentage: p }),
                None => None,
            }
        } else {
            None
        }
    }

    pub fn percentage(&self) -> (p: Price)
        ensures
            p == self.spec_percentage(),
    {
        self.percentage
    }
}

/// A stop-loss percentage that moves from a start to an end value over a
/// ramp-up span, counted from the first quote it is asked about.
#[derive(Clone, Copy, Debug)]
pub struct TimeVariantPercentage {
    end_percentage: Price,
    start_percentage: Price,
    ramp_up: i64,
    start_date: Option<i64>,
}

impl TimeVariantPercentage {
    #[verifier::type_invariant]
    spec fn start_representable(self) -> bool {
        self.start_date matches Some(s) ==> in_time_range(s as int)
    }

    pub closed spec fn spec_end_percentage(self) -> Price {
        self.end_percentage
    }

    pub closed spec fn spec_start_percentage(self) -> Price {
        self.start_percentage
    }

    pub closed spec fn spec_ramp_up(self) -> i64 {
        self.ramp_up
    }

    pub closed spec fn spec_start_date(self) -> Option<i64> {
        self.start_date
    }

    /// The instant the ramp starts from when asked at `now`.
    pub open spec fn ramp_start(self, now: i64) -> i64 {
        match self.spec_start_date() {
            Some(s) => s,
            None => now,
        }
    }

    /// A percentage ramping from `start` to `end` over `ramp_up`, not
    /// started yet.
    pub fn new(start: Price, end: Price, ramp_up: i64) -> (r: Self)
        ensures
            r.spec_start_percentage() == start,
            r.spec_end_percentage() == end,
            r.spec_ramp_up() == ramp_up,
            r.spec_start_date() is None,
    {
        TimeVariantPercentage {
            end_percentage: end,
            start_percentage: start,
            ramp_up,
            start_date: None,
        }
    }

    /// Whether the ramp is still running at the quote's instant; the first
    /// call starts it there.
    pub fn is_in_ramp_duration<S: Stock>(&mut self, stock: &S) -> (r: bool)
        requires
            in_time_range(old(self).ramp_start(stock.spec_time()) + old(self).spec_ramp_up()),
        ensures
            final(self).spec_start_date() == Some(old(self).ramp_start(stock.spec_time())),
            r == (old(self).ramp_start(stock.spec_time()) + old(self).spec_ramp_up()
                > stock.spec_time()),
            final(self).spec_start_percentage() == old(self).spec_start_percentage(),
            final(self).spec_end_percentage() == old(self).spec_end_percentage(),
            final(self).spec_ramp_up() == old(self).spec_ramp_up(),
    {
        proof {
            use_type_invariant(&*self);
        }
        let now = stock.get_time();
        let start = match self.start_date {
            Some(s) => s,
            None => {
                self.start_date = Some(now);
                now
            },
        };
        add_span(start, self.ramp_up) > now
    }

    pub fn end_percentage(&self) -> (p: Price)
        ensures
            p == self.spec_end_percentage(),
    {
        self.end_percentage
    }

    pub fn start_percentage(&self) -> (p: Price)
        ensures
            p == self.spec_start_percentage(),
    {
        self.start_percentage
    }

    pub fn ramp_up(&self) -> (d: i64)
        ensures
            d == self.spec_ramp_up(),
    {
        self.ramp_up
    }

    pub fn start_date(&self) -> (t: Option<i64>)
        ensures
            t == self.spec_start_date(),
    {
        self.start_date
    }
}

/// Whether `after` is `before` once the trailing stop loss has looked at a
/// sell price `p` quoted at `t`, with the generator going from `g` to
/// `g_next`: the quote is recorded; a position that reached a new high asks
/// the generator once, about the position as recorded, and takes the
/// proposal as its stop loss unless the position would be wiped out there;
/// any other position leaves the generator alone.
pub open spec fn trailed<G: Generator>(
    before: StockInvestment,
    p: Price,
    t: i64,
    after: StockInvestment,
    g: G,
    g_next: G,
) -> bool {
    exists|seen: StockInvestment|
        {
            &&& #[trigger] before.seen(p, t, seen)
            &&& if p.key() > before.spec_max_price().key() {
                exists|v: Price|
                    {
                        &&& #[trigger] g.proposes(p, t, seen, v, g_next)
                        &&& if seen.wiped_out_at(v) {
                            after == seen
                        } else {
                            &&& seen.same_but_stop_loss(after)
                            &&& after.spec_stop_loss() == v
                        }
                    }
            } else {
                &&& after == seen
                &&& g_next == g
            }
        }
}

/// Whether the positions `after` are those of `before`, one for one, each
/// trailed at a sell price `p` quoted at `t`, in some order in which the
/// generator's state passes from one position to the next, starting at `g`
/// and ending at `g_last`.
pub open spec fn trailed_all<G: Generator>(
    before: Multiset<StockInvestment>,
    p: Price,
    t: i64,
    after: Multiset<StockInvestment>,
    g: G,
    g_last: G,
) -> bool {
    exists|b: Seq<StockInvestment>, a: Seq<StockInvestment>, gens: Seq<G>|
        {
            &&& #[trigger] b.to_multiset() == before
            &&& #[trigger] a.to_multiset() == after
            &&& b.len() == a.len()
            &&& #[trigger] gens.len() == b.len() + 1
            &&& gens[0] == g
            &&& gens[b.len() as int] == g_last
            &&& forall|i: int|
                0 <= i < b.len() ==> trailed(#[trigger] b[i], p, t, a[i], gens[i], gens[i + 1])
        }
}

/// What trailing does to one position, wherever its stop loss stood before:
/// on a quote that is a new high (a sell price above the highest seen) the
/// quote becomes the highest price, the generator is asked about the position
/// as recorded, and the stop loss becomes the proposal, or stays where it was
/// if the proposal lies below the wipeout price; on any other quote the stop
/// loss stays and the generator is left alone.
pub proof fn lemma_trailing_follows_every_new_high<G: Generator>(
    before: StockInvestment,
    p: Price,
    t: i64,
    after: StockInvestment,
    g: G,
    g_next: G,
)
    requires
        before.spec_min_price().key() <= before.spec_max_price().key(),
        trailed(before, p, t, after, g, g_next),
    ensures
        p.key() > before.spec_max_price().key() ==> {
            &&& after.spec_max_price() == p
            &&& after.spec_max_at() == t
            &&& exists|recorded: StockInvestment, v: Price|
                {
                    &&& before.seen(p, t, recorded)
                    &&& #[trigger] g.proposes(p, t, recorded, v, g_next)
                    &&& recorded.spec_stop_loss() == before.spec_stop_loss()
                    &&& recorded.spec_max_price() == p
                    &&& if before.spec_wipeout_at().key() > v.key() {
                        after.spec_stop_loss() == before.spec_stop_loss()
                    } else {
                        after.spec_stop_loss() == v
                    }
                }
        },
        !(p.key() > before.spec_max_price().key()) ==> {
            &&& after.spec_stop_loss() == before.spec_stop_loss()
            &&& g_next == g
        },
        after.spec_wipeout_at() == before.spec_wipeout_at(),
{
    let recorded = choose|seen: StockInvestment|
        #[trigger] before.seen(p, t, seen) && if p.key() > before.spec_max_price().key() {
            exists|v: Price|
                {
                    &&& #[trigger] g.proposes(p, t, seen, v, g_next)
                    &&& if seen.wiped_out_at(v) {
                        after == seen
                    } else {
                        &&& seen.same_but_stop_loss(after)
                        &&& after.spec_stop_loss() == v
                    }
                }
        } else {
            &&& after == seen
            &&& g_next == g
        };
    if p.key() > before.spec_max_price().key() {
        let v = choose|v: Price|
            {
                &&& #[trigger] g.proposes(p, t, recorded, v, g_next)
                &&& if recorded.wiped_out_at(v) {
                    after == recorded
                } else {
                    &&& recorded.same_but_stop_loss(after)
                    &&& after.spec_stop_loss() == v
                }
            };
        assert(before.seen(p, t, recorded));
        assert(g.proposes(p, t, recorded, v, g_next));
    }
}

/// What the trailing pass does to the open positions, position by position:
/// they stay one for one, and each is trailed as
/// `lemma_trailing_follows_every_new_high` says, the generator's state passing
/// from each request to the next.
pub proof fn lemma_inspect_trails_every_position<G: Generator>(
    s: DCAWithTrailingStopLoss<G>,
    before: Multiset<StockInvestment>,
    p: Price,
    t: i64,
    after: Multiset<StockInvestment>,
    next: DCAWithTrailingStopLoss<G>,
)
    requires
        forall|q: StockInvestment| #[trigger]
            before.contains(q) ==> q.spec_min_price().key() <= q.spec_max_price().key(),
        s.adjusts(before, p, t, after, next),
    ensures
        exists|b: Seq<StockInvestment>, a: Seq<StockInvestment>, gens: Seq<G>|
            {
                &&& #[trigger] b.to_multiset() == before
                &&& #[trigger] a.to_multiset() == after
                &&& b.len() == a.len()
                &&& #[trigger] gens.len() == b.len() + 1
                &&& gens[0] == s.spec_generator()
                &&& gens[b.len() as int] == next.spec_generator()
                &&& forall|i: int|
                    0 <= i < b.len() ==> {
                        &&& (p.key() > (#[trigger] b[i]).spec_max_price().key() ==> exists|
                            recorded: StockInvestment,
                            v: Price,
                        |
                            {
                                &&& b[i].seen(p, t, recorded)
                                &&& #[trigger] gens[i].proposes(p, t, recorded, v, gens[i + 1])
                                &&& if b[i].spec_wipeout_at().key() > v.key() {
                                    a[i].spec_stop_loss() == b[i].spec_stop_loss()
                                } else {
                                    a[i].spec_stop_loss() == v
                                }
                            })
                        &&& (!(p.key() > b[i].spec_max_price().key()) ==> {
                            &&& a[i].spec_stop_loss() == b[i].spec_stop_loss()
                            &&& gens[i + 1] == gens[i]
                        })
                    }
            },
        next.spec_internal_strat() == s.spec_internal_strat(),
        next.spec_returned_funds() == s.spec_returned_funds(),
{
    let (b, a, gens) = choose|b: Seq<StockInvestment>, a: Seq<StockInvestment>, gens: Seq<G>|
        {
            &&& #[trigger] b.to_multiset() == before
            &&& #[trigger] a.to_multiset() == after
            &&& b.len() == a.len()
            &&& #[trigger] gens.len() == b.len() + 1
            &&& gens[0] == s.spec_generator()
            &&& gens[b.len() as int] == next.spec_generator()
            &&& forall|i: int|
                0 <= i < b.len() ==> trailed(#[trigger] b[i], p, t, a[i], gens[i], gens[i + 1])
        };
    assert forall|i: int| 0 <= i < b.len() implies {
        &&& (p.key() > (#[trigger] b[i]).spec_max_price().key() ==> exists|
            recorded: StockInvestment,
            v: Price,
        |
            {
                &&& b[i].seen(p, t, recorded)
                &&& #[trigger] gens[i].proposes(p, t, recorded, v, gens[i + 1])
                &&& if b[i].spec_wipeout_at().key() > v.key() {
                    a[i].spec_stop_loss() == b[i].spec_stop_loss()
                } else {
                    a[i].spec_stop_loss() == v
                }
            })
        &&& (!(p.key() > b[i].spec_max_price().key()) ==> {
            &&& a[i].spec_stop_loss() == b[i].spec_stop_loss()
            &&& gens[i + 1] == gens[i]
        })
    } by {
        assert(b.to_multiset().contains(b[i]));
        lemma_trailing_follows_every_new_high(b[i], p, t, a[i], gens[i], gens[i + 1]);
    }
}

/// Dollar-cost averaging whose positions get a trailing stop loss.  Money
/// handed back is recorded amount by amount (as `f32` bit patterns), for the
/// caller to add up.
pub struct DCAWithTrailingStopLoss<G: Generator> {
    pub internal_strat_: DollarCostAveragingLinear,
    pub generator_: G,
    returned_funds: Vec<u32>,
}

impl<G: Generator> DCAWithTrailingStopLoss<G> {
    pub closed spec fn spec_returned_funds(self) -> Seq<u32> {
        self.returned_funds@
    }

    pub closed spec fn spec_internal_strat(self) -> DollarCostAveragingLinear {
        self.internal_strat_
    }

    pub closed spec fn spec_generator(self) -> G {
        self.generator_
    }

    /// A strategy with nothing handed back yet.
    pub fn new(internal_strat_: DollarCostAveragingLinear, generator_: G) -> (r: Self)
        ensures
            r.spec_internal_strat() == internal_strat_,
            r.spec_generator() == generator_,
            r.spec_returned_funds() == Seq::<u32>::empty(),
    {
        DCAWithTrailingStopLoss { internal_strat_, generator_, returned_funds: Vec::new() }
    }

    /// Records money handed back to the investor.
    pub fn return_funds(&mut self, amount: u32)
        ensures
            final(self).spec_returned_funds() == old(self).spec_returned_funds().push(amount),
            final(self).spec_internal_strat() == old(self).spec_internal_strat(),
            final(self).spec_generator() == old(self).spec_generator(),
    {
        self.returned_funds.push(amount);
    }

    /// The amounts handed back, in order.
    pub fn returned_funds(&self) -> (r: &Vec<u32>)
        ensures
            r@ == self.spec_returned_funds(),
    {
        &self.returned_funds
    }
}

impl<G: Generator> InvestmentStrategy for DCAWithTrailingStopLoss<G> {
    open spec fn funds_defined(&self) -> bool {
        self.spec_internal_strat().funds_defined()
    }

    open spec fn leverage_defined(&self) -> bool {
        self.spec_internal_strat().leverage_defined()
    }

    open spec fn spec_leverage(&self) -> u32 {
        self.spec_internal_strat().spec_leverage()
    }

    /// As the plain strategy; the money handed back and the generator stay.
    open spec fn pays(&self, now: i64, amount: u32, next: Self) -> bool {
        &&& self.spec_internal_strat().pays(now, amount, next.spec_internal_strat())
        &&& next.spec_returned_funds() == self.spec_returned_funds()
        &&& next.spec_generator() == self.spec_generator()
    }

    /// Each position is trailed; the plain strategy and the money handed
    /// back stay.
    open spec fn adjusts(
        &self,
        before: Multiset<StockInvestment>,
        p: Price,
        t: i64,
        after: Multiset<StockInvestment>,
        next: Self,
    ) -> bool {
        &&& trailed_all(before, p, t, after, self.spec_generator(), next.spec_generator())
        &&& next.spec_internal_strat() == self.spec_internal_strat()
        &&& next.spec_returned_funds() == self.spec_returned_funds()
    }

    fn can_fund(&self) -> (r: bool) {
        self.internal_strat_.can_fund()
    }

    fn has_leverage(&self) -> (r: bool) {
        self.internal_strat_.has_leverage()
    }

    fn get_funds<S: Stock>(&mut self, stock: &S) -> (amount: u32) {
        self.internal_strat_.get_funds(stock)
    }

    /// Each position records the quote; one that reached a new high gets the
    /// generator's stop loss, unless that lies below its wipeout price.
    fn inspect_positions<S: Stock>(&mut self, positions: &mut PositionHeap, current_stock: &S) {
        let v = positions.drain();
        let ghost p = current_stock.spec_sell_price();
        let ghost t = current_stock.spec_time();
        let ghost mut after: Seq<StockInvestment> = Seq::empty();
        let ghost mut gens: Seq<G> = seq![self.generator_];
        let n = v.len();
        let mut i: usize = 0;
        while i < n
            invariant
                n == v@.len(),
                i <= n,
                after.len() == i,
                positions.contents() =~= after.to_multiset(),
                gens.len() == i + 1,
                gens[0] == old(self).spec_generator(),
                gens[i as int] == self.generator_,
                forall|j: int|
                    0 <= j < i ==> trailed(#[trigger] v@[j], p, t, after[j], gens[j], gens[j + 1]),
                self.internal_strat_ == old(self).spec_internal_strat(),
                self.returned_funds@ == old(self).returned_funds@,
                p == current_stock.spec_sell_price(),
                t == current_stock.spec_time(),
            decreases n - i,
        {
            let mut e = v[i];
            let ghost before_e = e;
            let ghost g_before = self.generator_;
            let new_high = e.eval(current_stock);
            let ghost seen = e;
            if new_high {
                let new_sl = self.generator_.generate(current_stock, &e);
                let _ = e.set_stop_loss(new_sl);
                proof {
                    assert(g_before.proposes(p, t, seen, new_sl, self.generator_));
                }
            }
            proof {
                assert(before_e.seen(p, t, seen));
                assert(trailed(before_e, p, t, e, g_before, self.generator_));
                gens = gens.push(self.generator_);
                assert(after.push(e).to_multiset() =~= after.to_multiset().insert(e));
                after = after.push(e);
            }
            positions.push(e);
            i = i + 1;
        }
        proof {
            assert(trailed_all(
                v@.to_multiset(),
                p,
                t,
                after.to_multiset(),
                old(self).spec_generator(),
                self.generator_,
            ));
        }
    }

    fn get_leverage(&self) -> (p: Price) {
        self.internal_strat_.get_leverage()
    }
}

} // verus!
