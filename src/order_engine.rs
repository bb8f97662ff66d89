use vstd::prelude::*;

use crate::market::MarketPair;
use crate::portfolio::{after_fill, has_open_position, Portfolio, Position};
use crate::PRICE_SCALE;

verus! {

/// Simulated broker round trip before a long or short fill lands, in milliseconds.
pub const FILL_LATENCY_MS: u64 = 300;

/// Capacity of the order submission channel shared by all market loops.
pub const ORDER_CHANNEL_CAPACITY: usize = 128;

/// Lowest fill price the simulated broker gives.
pub const MIN_FILL_PRICE: i64 = 10 * PRICE_SCALE;

/// Highest fill price the simulated broker gives.
pub const MAX_FILL_PRICE: i64 = 20 * PRICE_SCALE;

/// A trade intent for one market, as submitted to the order engine.
#[derive(Debug)]
pub enum OrderEvent {
    Reverse(MarketPair),
    Long(MarketPair),
    Short(MarketPair),
    Close(MarketPair),
}

/// A long or short fill waiting for its latency and price.
#[derive(Debug)]
pub struct PendingFill {
    pub market: MarketPair,
    pub size: i32,
}

/// What the engine does with an intent.
#[derive(Debug)]
pub enum OrderAction {
    /// Remove the market's position now, without latency.
    CloseNow(MarketPair),
    /// Hand the fill to a unit of its own, which waits, draws a price and
    /// then completes it.
    Fill(PendingFill),
    /// Nothing to do.
    Ignore,
}

/// The position a fill of `size` at `price` records.
pub open spec fn fill_position(size: i32, price: i64) -> Position {
    Position { size, price }
}

/// Relies on rand's `thread_rng().gen_range(low..=high)`: a value drawn
/// from the closed range, which must not be empty.
#[verifier::external_body]
fn random_in_range(low: i64, high: i64) -> (r: i64)
    requires
        low <= high,
    ensures
        low <= r <= high,
{
    rand::Rng::gen_range(&mut rand::thread_rng(), low..=high)
}

/// Consumes trade intents and turns them into ledger changes.
#[derive(Clone, Copy, Debug, Default)]
pub struct OrderEngine;

impl OrderEngine {
    /// Decides what an intent becomes: a close is applied at once, a long
    /// or short becomes a fill of size 1 or -1, a reverse is not handled.
    pub fn route(&self, event: OrderEvent) -> (r: OrderAction)
        ensures
            match event {
                OrderEvent::Close(m) => r == OrderAction::CloseNow(m),
                OrderEvent::Long(m) => r == (OrderAction::Fill(PendingFill { market: m, size: 1i32 })),
                OrderEvent::Short(m) => r == (OrderAction::Fill(PendingFill { market: m, size: -1i32 })),
                OrderEvent::Reverse(_) => r == OrderAction::Ignore,
            },
    {
        match event {
            OrderEvent::Close(m) => OrderAction::CloseNow(m),
            OrderEvent::Long(m) => OrderAction::Fill(PendingFill { market: m, size: 1i32 }),
            OrderEvent::Short(m) => OrderAction::Fill(PendingFill { market: m, size: -1i32 }),
            OrderEvent::Reverse(_) => OrderAction::Ignore,
        }
    }

    /// Draws the simulated broker's fill price.
    pub fn draw_fill_price(&self) -> (r: i64)
        ensures
            MIN_FILL_PRICE <= r <= MAX_FILL_PRICE,
    {
        random_in_range(MIN_FILL_PRICE, MAX_FILL_PRICE)
    }

    /// Lands a fill at `price`: the position is recorded only where the
    /// market has no open position. Returns whether it was recorded.
    pub fn complete_fill(&self, portfolio: &mut Portfolio, fill: PendingFill, price: i64) -> (r: bool)
        requires
            old(portfolio).wf(),
        ensures
            final(portfolio).wf(),
            r == !has_open_position(old(portfolio)@, fill.market@),
            final(portfolio)@ == after_fill(
                old(portfolio)@,
                fill.market@,
                fill_position(fill.size, price),
            ),
            final(portfolio).engine_id == old(portfolio).engine_id,
            final(portfolio).markets == old(portfolio).markets,
    {
        let position = Position { size: fill.size, price };
        portfolio.insert_if_absent(fill.market, position)
    }

    /// Applies an intent whose fill price is already known: a close removes
    /// the market's position, a long or short records a fill at `price`.
    pub fn apply(&self, portfolio: &mut Portfolio, event: OrderEvent, price: i64)
        requires
            old(portfolio).wf(),
        ensures
            final(portfolio).wf(),
            final(portfolio)@ == applied(old(portfolio)@, event, price),
            final(portfolio).engine_id == old(portfolio).engine_id,
            final(portfolio).markets == old(portfolio).markets,
    {
        match self.route(event) {
            OrderAction::CloseNow(m) => portfolio.close_position(&m),
            OrderAction::Fill(f) => {
                let _ = self.complete_fill(portfolio, f, price);
            },
            OrderAction::Ignore => {},
        }
    }
}

/// The ledger `m` after `event` is applied with fill price `price`.
pub open spec fn applied(
    m: Map<(Seq<char>, Seq<char>), Position>,
    event: OrderEvent,
    price: i64,
) -> Map<(Seq<char>, Seq<char>), Position> {
    match event {
        OrderEvent::Close(k) => m.remove(k@),
        OrderEvent::Long(k) => after_fill(m, k@, fill_position(1i32, price)),
        OrderEvent::Short(k) => after_fill(m, k@, fill_position(-1i32, price)),
        OrderEvent::Reverse(_) => m,
    }
}

} // verus!
