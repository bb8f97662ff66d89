use vstd::prelude::*;

use crate::market::{Candle, MarketData, MarketPair};
use crate::portfolio::Position;

verus! {

/// What a policy asks for.
#[derive(Clone, Copy, Debug, PartialEq, Eq, Structural)]
pub enum TradeSignal {
    Long,
    Short,
    Close,
}

/// The read-only snapshot a policy decides on.
pub struct SystemCtx {
    pub position: Position,
    pub market_pair: MarketPair,
    pub market_data: MarketData,
}

/// A snapshot as the policy sees it: the position, the market and the price
/// history, most recent bar first.
pub struct CtxView {
    pub position: Position,
    pub market: (Seq<char>, Seq<char>),
    pub history: Seq<Candle>,
}

impl View for SystemCtx {
    type V = CtxView;

    open spec fn view(&self) -> CtxView {
        CtxView {
            position: self.position,
            market: self.market_pair@,
            history: self.market_data.candles@,
        }
    }
}

/// A trading policy: one decision from a snapshot to an optional signal.
pub trait SignalGenerator {
    /// The signal this policy gives on `ctx`.
    spec fn signal_for(&self, ctx: CtxView) -> Option<TradeSignal>;

    fn generate_signal(&mut self, ctx: SystemCtx) -> (r: Option<TradeSignal>)
        ensures
            r == old(self).signal_for(ctx@),
    ;
}

/// How often a policy is asked to decide.
pub struct StrategyParams {
    pub duration: std::time::Duration,
}

/// Goes long whenever there is price data and the position is flat.
#[derive(Clone, Copy, Debug)]
pub struct SimpleStrat {}

pub open spec fn simple_signal(ctx: CtxView) -> Option<TradeSignal> {
    if ctx.history.len() == 0 {
        None
    } else if ctx.position.size == 0 {
        Some(TradeSignal::Long)
    } else {
        None
    }
}

impl SignalGenerator for SimpleStrat {
    open spec fn signal_for(&self, ctx: CtxView) -> Option<TradeSignal> {
        simple_signal(ctx)
    }

    fn generate_signal(&mut self, ctx: SystemCtx) -> (r: Option<TradeSignal>) {
        if ctx.market_data.len() == 0 {
            return None;
        }
        if ctx.position.size == 0 {
            return Some(TradeSignal::Long);
        }
        None
    }
}

/// Closes once the latest close has fallen below the entry price.
#[derive(Clone, Copy, Debug)]
pub struct Rsi {
    pub period: usize,
}

pub open spec fn rsi_signal(ctx: CtxView) -> Option<TradeSignal> {
    if ctx.history.len() == 0 {
        None
    } else if ctx.position.price > ctx.history[0].close {
        Some(TradeSignal::Close)
    } else {
        None
    }
}

impl SignalGenerator for Rsi {
    open spec fn signal_for(&self, ctx: CtxView) -> Option<TradeSignal> {
        rsi_signal(ctx)
    }

    fn generate_signal(&mut self, ctx: SystemCtx) -> (r: Option<TradeSignal>) {
        match ctx.market_data.latest() {
            None => None,
            Some(first_candle) => {
                if ctx.position.price > first_candle.close {
                    Some(TradeSignal::Close)
                } else {
                    None
                }
            },
        }
    }
}

/// The policies a market loop can run.
#[derive(Clone, Copy, Debug)]
pub enum Strategy {
    Simple(SimpleStrat),
    Rsi(Rsi),
}

impl SignalGenerator for Strategy {
    open spec fn signal_for(&self, ctx: CtxView) -> Option<TradeSignal> {
        match self {
            Strategy::Simple(s) => s.signal_for(ctx),
            Strategy::Rsi(s) => s.signal_for(ctx),
        }
    }

    fn generate_signal(&mut self, ctx: SystemCtx) -> (r: Option<TradeSignal>) {
        match self {
            Strategy::Simple(s) => s.generate_signal(ctx),
            Strategy::Rsi(s) => s.generate_signal(ctx),
        }
    }
}

} // verus!
