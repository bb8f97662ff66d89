use std::collections::VecDeque;

use vstd::prelude::*;

use crate::portfolio::Position;

verus! {

/// A tradable instrument pair: the asset and the currency it is quoted in.
/// It is the key under which loops, channels and ledger entries are kept.
#[derive(Debug, Hash)]
pub struct MarketPair {
    pub asset: String,
    pub base: String,
}

impl View for MarketPair {
    type V = (Seq<char>, Seq<char>);

    open spec fn view(&self) -> (Seq<char>, Seq<char>) {
        (self.asset@, self.base@)
    }
}

impl MarketPair {
    pub fn new(asset: &str, base: &str) -> (r: MarketPair)
        ensures
            r.asset@ == asset@,
            r.base@ == base@,
    {
        MarketPair { asset: asset.to_string(), base: base.to_string() }
    }

    /// Whether both pairs name the same market.
    pub fn same_market(&self, other: &MarketPair) -> (r: bool)
        ensures
            r == (self@ == other@),
    {
        self.asset == other.asset && self.base == other.base
    }
}

impl Clone for MarketPair {
    fn clone(&self) -> (r: MarketPair)
        ensures
            r == *self,
    {
        MarketPair { asset: self.asset.clone(), base: self.base.clone() }
    }
}

impl PartialEq for MarketPair {
    fn eq(&self, other: &MarketPair) -> (r: bool) {
        self.same_market(other)
    }
}

impl vstd::std_specs::cmp::PartialEqSpecImpl for MarketPair {
    open spec fn obeys_eq_spec() -> bool {
        true
    }

    open spec fn eq_spec(&self, other: &MarketPair) -> bool {
        self@ == other@
    }
}

impl Eq for MarketPair {

}

/// One price bar: fixed-point open, high, low and close, the traded volume,
/// and its time in epoch seconds.
#[derive(Clone, Copy, Debug, PartialEq, Eq, Structural)]
pub struct Candle {
    pub open: i64,
    pub high: i64,
    pub low: i64,
    pub close: i64,
    pub volume: i64,
    pub timestamp: i64,
}

/// What a market's inbound channel carries.
#[derive(Clone, Copy, Debug)]
pub enum MarketEvent {
    Ohlc(Candle),
}

/// Control signals that every market loop polls.
#[derive(Clone, Copy, Debug)]
pub enum Command {
    ForceExit,
    PortfolioStatus,
    CloseAllPositions,
    AddPortfolioPosition(Position),
}

/// Bars kept by a market history when no other bound is asked for.
pub const DEFAULT_HISTORY_CAPACITY: usize = 4096;

/// The price history of one market, most recent bar first, holding at most
/// `capacity` bars.
pub struct MarketData {
    pub candles: VecDeque<Candle>,
    pub capacity: usize,
}

/// The history `h` after `bar` arrives, with at most `cap` bars kept: the new
/// bar goes in front and, when the history is full, the oldest bar leaves.
pub open spec fn pushed(h: Seq<Candle>, bar: Candle, cap: nat) -> Seq<Candle> {
    if h.len() < cap {
        seq![bar] + h
    } else {
        seq![bar] + h.take(cap - 1)
    }
}

impl MarketData {
    pub open spec fn wf(&self) -> bool {
        1 <= self.capacity && self.candles@.len() <= self.capacity
    }

    /// An empty history with the default bound.
    pub fn new() -> (r: MarketData)
        ensures
            r.wf(),
            r.candles@ == Seq::<Candle>::empty(),
            r.capacity == DEFAULT_HISTORY_CAPACITY,
    {
        MarketData { candles: VecDeque::new(), capacity: DEFAULT_HISTORY_CAPACITY }
    }

    /// An empty history holding at most `capacity` bars.
    pub fn with_capacity(capacity: usize) -> (r: MarketData)
        requires
            capacity >= 1,
        ensures
            r.wf(),
            r.candles@ == Seq::<Candle>::empty(),
            r.capacity == capacity,
    {
        MarketData { candles: VecDeque::new(), capacity }
    }

    /// Number of bars held.
    pub fn len(&self) -> (r: usize)
        ensures
            r == self.candles@.len(),
    {
        self.candles.len()
    }

    /// The most recent bar, if any.
    pub fn latest(&self) -> (r: Option<Candle>)
        ensures
            r == (if self.candles@.len() > 0 {
                Some(self.candles@[0])
            } else {
                None::<Candle>
            }),
    {
        if self.candles.len() == 0 {
            None
        } else {
            Some(self.candles[0])
        }
    }

    /// Puts `bar` in front of the history, dropping the oldest bar when full.
    pub fn push_bar(&mut self, bar: Candle)
        requires
            old(self).wf(),
        ensures
            final(self).wf(),
            final(self).capacity == old(self).capacity,
            final(self).candles@ == pushed(old(self).candles@, bar, old(self).capacity as nat),
    {
        if self.candles.len() >= self.capacity {
            let _ = self.candles.pop_back();
        }
        self.candles.push_front(bar);
        assert(self.candles@ =~= pushed(old(self).candles@, bar, old(self).capacity as nat));
    }

    /// A copy of the history.
    pub fn snapshot(&self) -> (r: MarketData)
        ensures
            r.candles@ == self.candles@,
            r.capacity == self.capacity,
    {
        let mut candles: VecDeque<Candle> = VecDeque::new();
        let mut i: usize = 0;
        while i < self.candles.len()
            invariant
                i <= self.candles@.len(),
                candles@ == self.candles@.take(i as int),
            decreases self.candles@.len() - i,
        {
            candles.push_back(self.candles[i]);
            i = i + 1;
            assert(candles@ =~= self.candles@.take(i as int));
        }
        assert(candles@ =~= self.candles@);
        MarketData { candles, capacity: self.capacity }
    }
}

impl Clone for MarketData {
    fn clone(&self) -> (r: MarketData)
        ensures
            r.candles@ == self.candles@,
            r.capacity == self.capacity,
    {
        self.snapshot()
    }
}

} // verus!
