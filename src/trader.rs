use vstd::prelude::*;

use crate::market::{Candle, Command, MarketData, MarketEvent, MarketPair, pushed};
use crate::order_engine::OrderEvent;
use crate::portfolio::Position;
use crate::strategies::{CtxView, SignalGenerator, Strategy, SystemCtx, TradeSignal};

verus! {

/// Pause between two cycles of a market loop, in milliseconds.
pub const CYCLE_SLEEP_MS: u64 = 10;

/// Whether a market loop goes on after a cycle's polls.
#[derive(Clone, Copy, Debug, PartialEq, Eq, Structural)]
pub enum CycleControl {
    Continue,
    Stop,
}

/// Whether the polled stop signal or command ends the loop.
pub open spec fn stop_requested(stop: Option<bool>, command: Option<Command>) -> bool {
    stop == Some(true) || command matches Some(Command::ForceExit)
}

/// The history `h` (bounded by `cap`) after the polled inbound event, if any.
pub open spec fn received(h: Seq<Candle>, event: Option<MarketEvent>, cap: nat) -> Seq<Candle> {
    match event {
        Some(MarketEvent::Ohlc(bar)) => pushed(h, bar, cap),
        None => h,
    }
}

/// The intent a signal becomes for market `m`.
pub open spec fn intent_for(signal: Option<TradeSignal>, m: MarketPair) -> Option<OrderEvent> {
    match signal {
        Some(TradeSignal::Close) => Some(OrderEvent::Close(m)),
        Some(TradeSignal::Long) => Some(OrderEvent::Long(m)),
        Some(TradeSignal::Short) => Some(OrderEvent::Short(m)),
        None => None,
    }
}

/// The decision state of one market loop: its market, its own price
/// history and its policy.
pub struct Trader {
    pub engine_id: uuid::Uuid,
    pub market_pair: MarketPair,
    pub market_data: MarketData,
    pub tick_rate: std::time::Duration,
    pub strategy: Strategy,
}

impl Trader {
    pub fn new(
        engine_id: uuid::Uuid,
        market_pair: MarketPair,
        market_data: MarketData,
        tick_rate: std::time::Duration,
        strategy: Strategy,
    ) -> (r: Trader)
        ensures
            r.engine_id == engine_id,
            r.market_pair == market_pair,
            r.market_data == market_data,
            r.tick_rate == tick_rate,
            r.strategy == strategy,
    {
        Trader { engine_id, market_pair, market_data, tick_rate, strategy }
    }

    /// The polling half of a cycle. A stop signal of `true` or a `ForceExit`
    /// command ends the loop before the bar is looked at; otherwise the polled
    /// bar, if any, goes in front of the history.
    pub fn poll_step(
        &mut self,
        stop: Option<bool>,
        command: Option<Command>,
        event: Option<MarketEvent>,
    ) -> (r: CycleControl)
        requires
            old(self).market_data.wf(),
        ensures
            final(self).market_data.wf(),
            (r == CycleControl::Stop) == stop_requested(stop, command),
            r == CycleControl::Stop ==> final(self).market_data.candles@
                == old(self).market_data.candles@,
            r == CycleControl::Continue ==> final(self).market_data.candles@ == received(
                old(self).market_data.candles@,
                event,
                old(self).market_data.capacity as nat,
            ),
            final(self).market_data.capacity == old(self).market_data.capacity,
            final(self).market_pair == old(self).market_pair,
            final(self).engine_id == old(self).engine_id,
            final(self).tick_rate == old(self).tick_rate,
            final(self).strategy == old(self).strategy,
    {
        if let Some(true) = stop {
            return CycleControl::Stop;
        }
        if let Some(Command::ForceExit) = command {
            return CycleControl::Stop;
        }
        if let Some(MarketEvent::Ohlc(bar)) = event {
            self.market_data.push_bar(bar);
        }
        CycleControl::Continue
    }

    /// The deciding half of a cycle, run on a tick with the position read
    /// from the ledger. A market without a recorded position is skipped;
    /// otherwise the policy sees the position and a copy of the history, and
    /// its signal becomes an intent for this market.
    pub fn evaluate(&mut self, position: Option<Position>) -> (r: Option<OrderEvent>)
        ensures
            r == (match position {
                None => None::<OrderEvent>,
                Some(p) => intent_for(
                    old(self).strategy.signal_for(
                        CtxView {
                            position: p,
                            market: old(self).market_pair@,
                            history: old(self).market_data.candles@,
                        },
                    ),
                    old(self).market_pair,
                ),
            }),
            final(self).market_data == old(self).market_data,
            final(self).market_pair == old(self).market_pair,
            final(self).engine_id == old(self).engine_id,
            final(self).tick_rate == old(self).tick_rate,
    {
        let position = match position {
            Some(p) => p,
            None => return None,
        };
        let ctx = SystemCtx {
            position,
            market_pair: self.market_pair.clone(),
            market_data: self.market_data.snapshot(),
        };
        match self.strategy.generate_signal(ctx) {
            Some(TradeSignal::Close) => Some(OrderEvent::Close(self.market_pair.clone())),
            Some(TradeSignal::Long) => Some(OrderEvent::Long(self.market_pair.clone())),
            Some(TradeSignal::Short) => Some(OrderEvent::Short(self.market_pair.clone())),
            None => None,
        }
    }
}

} // verus!
