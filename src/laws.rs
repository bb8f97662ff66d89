use vstd::prelude::*;

use crate::market::{Candle, pushed};
use crate::order_engine::{applied, fill_position, OrderEvent};
use crate::portfolio::{after_fill, has_open_position, Position};

verus! {

/// The ledger after the intents `events` are applied in order, the i-th with
/// fill price `prices[i]`.
pub open spec fn replay(
    m: Map<(Seq<char>, Seq<char>), Position>,
    events: Seq<OrderEvent>,
    prices: Seq<i64>,
) -> Map<(Seq<char>, Seq<char>), Position>
    decreases events.len(),
{
    if events.len() == 0 || prices.len() == 0 {
        m
    } else {
        replay(applied(m, events[0], prices[0]), events.drop_first(), prices.drop_first())
    }
}

/// Every recorded position is flat or of a single unit.
pub open spec fn unit_positions(m: Map<(Seq<char>, Seq<char>), Position>) -> bool {
    forall|k| #[trigger] m.contains_key(k) ==> -1 <= m[k].size <= 1
}

/// Whether `k` is the market of a long or short among `events`.
pub open spec fn opened_in(events: Seq<OrderEvent>, k: (Seq<char>, Seq<char>)) -> bool {
    exists|i: int|
        0 <= i < events.len() && match #[trigger] events[i] {
            OrderEvent::Long(m) => m@ == k,
            OrderEvent::Short(m) => m@ == k,
            _ => false,
        }
}

/// The history `h` after the bars `bars` arrive in order.
pub open spec fn pushed_all(h: Seq<Candle>, bars: Seq<Candle>, cap: nat) -> Seq<Candle>
    decreases bars.len(),
{
    if bars.len() == 0 {
        h
    } else {
        pushed_all(pushed(h, bars[0], cap), bars.drop_first(), cap)
    }
}

/// A fill for a market with no open position records exactly that fill, and
/// a second fill for the same market before or after it changes nothing more:
/// two racing intents never leave two positions.
pub proof fn lemma_fill_opens_once(
    m: Map<(Seq<char>, Seq<char>), Position>,
    k: (Seq<char>, Seq<char>),
    first_size: i32,
    first_price: i64,
    second_size: i32,
    second_price: i64,
)
    requires
        !has_open_position(m, k),
        first_size == 1 || first_size == -1,
    ensures
        after_fill(m, k, fill_position(first_size, first_price)).contains_key(k),
        after_fill(m, k, fill_position(first_size, first_price))[k] == fill_position(
            first_size,
            first_price,
        ),
        after_fill(
            after_fill(m, k, fill_position(first_size, first_price)),
            k,
            fill_position(second_size, second_price),
        ) == after_fill(m, k, fill_position(first_size, first_price)),
{
}

/// Closing a market that has no recorded position leaves the ledger as it was.
pub proof fn lemma_close_absent_is_noop(
    m: Map<(Seq<char>, Seq<char>), Position>,
    k: (Seq<char>, Seq<char>),
)
    requires
        !m.contains_key(k),
    ensures
        m.remove(k) == m,
{
    assert(m.remove(k) =~= m);
}

/// Whatever order long, short and close intents across markets are applied
/// in, the ledger keeps at most one position per market, each flat or of a
/// single unit, and only for markets it had already or that some intent opened.
pub proof fn lemma_replay_one_position_per_market(
    m: Map<(Seq<char>, Seq<char>), Position>,
    events: Seq<OrderEvent>,
    prices: Seq<i64>,
)
    requires
        unit_positions(m),
    ensures
        unit_positions(replay(m, events, prices)),
        forall|k| #[trigger]
            replay(m, events, prices).contains_key(k) ==> m.contains_key(k) || opened_in(events, k),
    decreases events.len(),
{
    if events.len() == 0 || prices.len() == 0 {
    } else {
        let next = applied(m, events[0], prices[0]);
        assert(unit_positions(next));
        lemma_replay_one_position_per_market(next, events.drop_first(), prices.drop_first());
        assert forall|k| #[trigger]
            replay(m, events, prices).contains_key(k) implies m.contains_key(k) || opened_in(
            events,
            k,
        ) by {
            if !next.contains_key(k) {
                assert(opened_in(events.drop_first(), k));
                let i = choose|i: int|
                    0 <= i < events.drop_first().len() && match #[trigger] events.drop_first()[i] {
                        OrderEvent::Long(mm) => mm@ == k,
                        OrderEvent::Short(mm) => mm@ == k,
                        _ => false,
                    };
                assert(events[i + 1] == events.drop_first()[i]);
            }
        }
    }
}

/// Bars that arrive while the history has room for them all are kept, none
/// lost, the most recent first.
pub proof fn lemma_history_most_recent_first(h: Seq<Candle>, bars: Seq<Candle>, cap: nat)
    requires
        h.len() + bars.len() <= cap,
    ensures
        pushed_all(h, bars, cap) == bars.reverse() + h,
    decreases bars.len(),
{
    if bars.len() == 0 {
        assert(bars.reverse() + h =~= h);
    } else {
        let rest = bars.drop_first();
        let h1 = pushed(h, bars[0], cap);
        assert(h1 == seq![bars[0]] + h);
        lemma_history_most_recent_first(h1, rest, cap);
        assert(bars.reverse() =~= rest.reverse() + seq![bars[0]]);
        assert(rest.reverse() + h1 =~= bars.reverse() + h);
    }
}

} // verus!
