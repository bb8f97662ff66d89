use vstd::prelude::*;

use crate::trader::Trader;

verus! {

/// Capacity of each market's inbound price channel.
pub const PRICE_CHANNEL_CAPACITY: usize = 2048;

/// Capacity of the shared command channel.
pub const COMMAND_CHANNEL_CAPACITY: usize = 128;

/// The set of market loops of one engine, before they are started.
pub struct TradingEngine {
    pub engine_id: uuid::Uuid,
    pub traders: Vec<Trader>,
}

impl TradingEngine {
    pub fn new(engine_id: uuid::Uuid, traders: Vec<Trader>) -> (r: TradingEngine)
        ensures
            r.engine_id == engine_id,
            r.traders == traders,
    {
        TradingEngine { engine_id, traders }
    }

    /// Threads the worker pool needs so that every market loop has one of
    /// its own: one per trader, and at least one.
    pub fn worker_count(&self) -> (r: usize)
        ensures
            r >= self.traders@.len(),
            r >= 1,
            self.traders@.len() >= 1 ==> r == self.traders@.len(),
    {
        if self.traders.len() == 0 {
            1
        } else {
            self.traders.len()
        }
    }

    /// Hands the traders over for starting; the engine keeps none.
    pub fn take_traders(&mut self) -> (r: Vec<Trader>)
        ensures
            r@ == old(self).traders@,
            final(self).traders@.len() == 0,
            final(self).engine_id == old(self).engine_id,
    {
        let mut taken: Vec<Trader> = Vec::new();
        std::mem::swap(&mut taken, &mut self.traders);
        taken
    }
}

} // verus!
