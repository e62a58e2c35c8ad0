//! The open positions of a simulation, served highest stop loss first.

use vstd::prelude::*;
use vstd::multiset::Multiset;
use crate::stock_action::StockInvestment;

verus! {

broadcast use vstd::seq_lib::group_to_multiset_ensures, vstd::multiset::group_multiset_axioms;

/// Whether the positions in `s` are in nondecreasing order of stop loss.
pub open spec fn sorted_by_stop_loss(s: Seq<StockInvestment>) -> bool {
    forall|i: int, j: int| 0 <= i <= j < s.len() ==> s[i].order() <= s[j].order()
}

/// Whether every position in `s` has its stop loss at or above its wipeout
/// price.
pub open spec fn all_cover_wipeout(s: Seq<StockInvestment>) -> bool {
    forall|i: int|
        0 <= i < s.len() ==> #[trigger] s[i].stop_covers_wipeout() && s[i].spec_min_price().key()
            <= s[i].spec_max_price().key()
}

/// Whether `p` has a stop loss at least as high as every position in `m`.
pub open spec fn is_highest(p: StockInvestment, m: Multiset<StockInvestment>) -> bool {
    forall|q: StockInvestment| m.contains(q) ==> q.order() <= p.order()
}

/// A max-priority queue of positions keyed by stop loss: the one with the
/// highest stop loss comes out first; between equal stop losses the order is
/// left open.
#[derive(Debug)]
pub struct PositionHeap {
    items: Vec<StockInvestment>,
}

/// Inserting into a sequence adds one occurrence to its multiset.
proof fn lemma_insert_to_multiset(s: Seq<StockInvestment>, i: int, x: StockInvestment)
    requires
        0 <= i <= s.len(),
    ensures
        s.insert(i, x).to_multiset() =~= s.to_multiset().insert(x),
{
    let t = s.insert(i, x);
    assert(t.remove(i) =~= s);
    assert(t[i] == x);
    assert(t.to_multiset().contains(x));
}

impl PositionHeap {
    #[verifier::type_invariant]
    spec fn in_order(self) -> bool {
        &&& sorted_by_stop_loss(self.items@)
        &&& all_cover_wipeout(self.items@)
    }

    /// The positions held, counted with repetition.
    pub closed spec fn contents(self) -> Multiset<StockInvestment> {
        self.items@.to_multiset()
    }

    /// An empty queue.
    pub fn new() -> (r: PositionHeap)
        ensures
            r.contents() =~= Multiset::empty(),
    {
        PositionHeap { items: Vec::new() }
    }

    /// The number of positions held.
    pub fn len(&self) -> (n: usize)
        ensures
            n == self.contents().len(),
    {
        self.items.len()
    }

    /// Whether no position is held.
    pub fn is_empty(&self) -> (r: bool)
        ensures
            r == (self.contents().len() == 0),
    {
        self.items.len() == 0
    }

    /// Adds a position.
    pub fn push(&mut self, x: StockInvestment)
        ensures
            final(self).contents() =~= old(self).contents().insert(x),
    {
        proof {
            use_type_invariant(&*self);
        }
        x.keeps_order();
        let key = x.stop_loss().key_value();
        let mut items: Vec<StockInvestment> = Vec::new();
        std::mem::swap(&mut items, &mut self.items);
        let n = items.len();
        let mut i: usize = 0;
        while i < n
            invariant
                n == items.len(),
                i <= n,
                sorted_by_stop_loss(items@),
                all_cover_wipeout(items@),
                x.stop_covers_wipeout(),
                key == x.order(),
                forall|j: int| 0 <= j < i ==> items@[j].order() <= x.order(),
            ensures
                i <= n,
                i < n ==> items@[i as int].order() > x.order(),
                forall|j: int| 0 <= j < i ==> items@[j].order() <= x.order(),
            decreases n - i,
        {
            if items[i].stop_loss().key_value() > key {
                break;
            }
            i = i + 1;
        }
        proof {
            lemma_insert_to_multiset(items@, i as int, x);
            assert forall|j: int| i <= j < n implies items@[j].order() > x.order() by {
                assert(items@[i as int].order() <= items@[j].order());
            }
        }
        items.insert(i, x);
        self.items = items;
    }

    /// The position with the highest stop loss, if any.
    pub fn peek(&self) -> (r: Option<StockInvestment>)
        ensures
            r is None <==> self.contents().len() == 0,
            r matches Some(p) ==> self.contents().contains(p) && is_highest(p, self.contents()),
    {
        proof {
            use_type_invariant(self);
        }
        let n = self.items.len();
        if n == 0 {
            None
        } else {
            let p = self.items[n - 1];
            proof {
                assert(self.items@[n - 1] == p);
                assert forall|q: StockInvestment| self.contents().contains(q) implies q.order()
                    <= p.order() by {
                    let j = choose|j: int| 0 <= j < self.items@.len() && self.items@[j] == q;
                }
            }
            Some(p)
        }
    }

    /// Removes and returns the position with the highest stop loss, if any.
    pub fn pop(&mut self) -> (r: Option<StockInvestment>)
        ensures
            r is None <==> old(self).contents().len() == 0,
            r is None ==> final(self).contents() == old(self).contents(),
            r matches Some(p) ==> {
                &&& old(self).contents().contains(p)
                &&& is_highest(p, old(self).contents())
                &&& final(self).contents() =~= old(self).contents().remove(p)
            },
    {
        proof {
            use_type_invariant(&*self);
        }
        let mut items: Vec<StockInvestment> = Vec::new();
        std::mem::swap(&mut items, &mut self.items);
        let ghost s = items@;
        if items.len() == 0 {
            self.items = items;
            None
        } else {
            let q = items.pop();
            match q {
                Some(p) => {
                    proof {
                        assert(s.remove(s.len() - 1) =~= s.drop_last());
                        assert(s[s.len() - 1] == p);
                        assert forall|r: StockInvestment| s.to_multiset().contains(r) implies r.order()
                            <= p.order() by {
                            let j = choose|j: int| 0 <= j < s.len() && s[j] == r;
                        }
                    }
                    self.items = items;
                    Some(p)
                },
                None => {
                    self.items = items;
                    None
                },
            }
        }
    }

    /// Removes every position, returning them.
    pub fn drain(&mut self) -> (r: Vec<StockInvestment>)
        ensures
            r@.to_multiset() == old(self).contents(),
            final(self).contents() =~= Multiset::empty(),
    {
        let mut out: Vec<StockInvestment> = Vec::new();
        std::mem::swap(&mut out, &mut self.items);
        out
    }

    /// Every position held has its stop loss at or above its wipeout price,
    /// and its lowest price seen at or below its highest.
    pub fn keeps_stop_above_wipeout(&self)
        ensures
            forall|q: StockInvestment| #[trigger]
                self.contents().contains(q) ==> q.stop_covers_wipeout(),
            forall|q: StockInvestment| #[trigger]
                self.contents().contains(q) ==> q.spec_min_price().key()
                    <= q.spec_max_price().key(),
    {
        proof {
            use_type_invariant(self);
            assert forall|q: StockInvestment| #[trigger]
                self.contents().contains(q) implies q.stop_covers_wipeout() by {
                let j = choose|j: int| 0 <= j < self.items@.len() && self.items@[j] == q;
                assert(self.items@[j].stop_covers_wipeout());
            }
        }
    }

    /// A copy of every position held.
    pub fn to_vec(&self) -> (r: Vec<StockInvestment>)
        ensures
            r@.to_multiset() == self.contents(),
    {
        self.items.clone()
    }
}

} // verus!
