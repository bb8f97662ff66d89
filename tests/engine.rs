use std::time::Duration;

use market_trader::indicators::HeikinAshi;
use market_trader::market::{Candle, Command, MarketData, MarketEvent, MarketPair};
use market_trader::order_engine::{
    OrderAction, OrderEngine, OrderEvent, MAX_FILL_PRICE, MIN_FILL_PRICE,
};
use market_trader::portfolio::{Portfolio, Position};
use market_trader::strategies::{
    Rsi, SignalGenerator, SimpleStrat, Strategy, SystemCtx, TradeSignal,
};
use market_trader::trader::{CycleControl, Trader};
use market_trader::trading_engine::TradingEngine;
use market_trader::PRICE_SCALE;
use uuid::Uuid;

fn bar(close: i64, timestamp: i64) -> Candle {
    Candle { open: close, high: close, low: close, close, volume: 1500, timestamp }
}

fn ledger() -> Portfolio {
    Portfolio::new(Uuid::nil(), vec![MarketPair::new("SUI", "USD")])
}

fn trader(asset: &str, strategy: Strategy) -> Trader {
    Trader::new(
        Uuid::nil(),
        MarketPair::new(asset, "USD"),
        MarketData::new(),
        Duration::from_secs(2),
        strategy,
    )
}

#[test]
fn market_pair_new_keeps_both_symbols() {
    let m = MarketPair::new("BTC", "USD");
    assert_eq!(m.asset, "BTC");
    assert_eq!(m.base, "USD");
    assert!(m.same_market(&MarketPair::new("BTC", "USD")));
    assert!(!m.same_market(&MarketPair::new("BTC", "EUR")));
    assert!(m == m.clone());
}

#[test]
fn insert_then_get_and_close() {
    let mut p = ledger();
    let sui = MarketPair::new("SUI", "USD");
    assert_eq!(p.get(&sui), None);
    assert!(p.insert_if_absent(sui.clone(), Position { size: 1, price: 12 }));
    assert_eq!(p.get(&sui), Some(Position { size: 1, price: 12 }));
    p.close_position(&sui);
    assert_eq!(p.get(&sui), None);
    assert_eq!(p.position_count(), 0);
}

#[test]
fn close_without_position_is_noop() {
    let mut p = ledger();
    let sui = MarketPair::new("SUI", "USD");
    let sol = MarketPair::new("SOL", "USD");
    p.insert_if_absent(sol.clone(), Position { size: -1, price: 7 });
    p.close_position(&sui);
    p.close_position(&sui);
    assert_eq!(p.position_count(), 1);
    assert_eq!(p.get(&sol), Some(Position { size: -1, price: 7 }));
}

#[test]
fn second_fill_for_same_market_is_ignored() {
    let engine = OrderEngine;
    let mut p = ledger();
    let sui = MarketPair::new("SUI", "USD");
    let first = engine.route(OrderEvent::Long(sui.clone()));
    let second = engine.route(OrderEvent::Short(sui.clone()));
    let (OrderAction::Fill(f1), OrderAction::Fill(f2)) = (first, second) else {
        panic!("long and short become fills");
    };
    assert!(engine.complete_fill(&mut p, f1, 15 * PRICE_SCALE));
    assert!(!engine.complete_fill(&mut p, f2, 11 * PRICE_SCALE));
    assert_eq!(p.position_count(), 1);
    assert_eq!(p.get(&sui), Some(Position { size: 1, price: 15 * PRICE_SCALE }));
}

#[test]
fn fill_replaces_flat_entry() {
    let mut p = ledger();
    let sui = MarketPair::new("SUI", "USD");
    assert!(p.insert_if_absent(sui.clone(), Position { size: 0, price: 0 }));
    assert!(p.insert_if_absent(sui.clone(), Position { size: -1, price: 3 }));
    assert_eq!(p.get(&sui), Some(Position { size: -1, price: 3 }));
    assert!(!p.insert_if_absent(sui.clone(), Position { size: 1, price: 4 }));
    assert_eq!(p.position_count(), 1);
}

#[test]
fn route_maps_each_intent() {
    let engine = OrderEngine;
    let m = MarketPair::new("NQ", "");
    match engine.route(OrderEvent::Close(m.clone())) {
        OrderAction::CloseNow(x) => assert!(x == m),
        _ => panic!("close is applied at once"),
    }
    match engine.route(OrderEvent::Long(m.clone())) {
        OrderAction::Fill(f) => assert_eq!(f.size, 1),
        _ => panic!("long becomes a fill"),
    }
    match engine.route(OrderEvent::Short(m.clone())) {
        OrderAction::Fill(f) => assert_eq!(f.size, -1),
        _ => panic!("short becomes a fill"),
    }
    assert!(matches!(engine.route(OrderEvent::Reverse(m)), OrderAction::Ignore));
}

#[test]
fn interleaved_intents_keep_one_position_per_market() {
    let engine = OrderEngine;
    let mut p = ledger();
    let a = MarketPair::new("SUI", "USD");
    let b = MarketPair::new("SOL", "USD");
    let events = vec![
        OrderEvent::Long(a.clone()),
        OrderEvent::Short(b.clone()),
        OrderEvent::Long(a.clone()),
        OrderEvent::Close(b.clone()),
        OrderEvent::Short(b.clone()),
        OrderEvent::Short(a.clone()),
        OrderEvent::Long(b.clone()),
    ];
    let mut price = 10;
    for e in events {
        engine.apply(&mut p, e, price);
        price += 1;
    }
    assert_eq!(p.position_count(), 2);
    assert_eq!(p.get(&a), Some(Position { size: 1, price: 10 }));
    assert_eq!(p.get(&b), Some(Position { size: -1, price: 14 }));
}

#[test]
fn force_exit_stops_the_loop() {
    let mut t = trader("SUI", Strategy::Simple(SimpleStrat {}));
    let c = t.poll_step(None, Some(Command::ForceExit), Some(MarketEvent::Ohlc(bar(5, 1))));
    assert_eq!(c, CycleControl::Stop);
    assert_eq!(t.market_data.len(), 0);
    assert_eq!(t.poll_step(Some(true), None, None), CycleControl::Stop);
    assert_eq!(t.poll_step(Some(false), Some(Command::PortfolioStatus), None), CycleControl::Continue);
    assert_eq!(t.poll_step(None, Some(Command::CloseAllPositions), None), CycleControl::Continue);
}

#[test]
fn bars_accumulate_most_recent_first() {
    let mut t = trader("SOL", Strategy::Simple(SimpleStrat {}));
    for i in 0..10 {
        let c = t.poll_step(None, None, Some(MarketEvent::Ohlc(bar(100 + i, i))));
        assert_eq!(c, CycleControl::Continue);
    }
    assert_eq!(t.market_data.len(), 10);
    for (j, candle) in t.market_data.candles.iter().enumerate() {
        assert_eq!(candle.timestamp, 9 - j as i64);
    }
}

#[test]
fn full_history_drops_oldest_bar() {
    let mut h = MarketData::with_capacity(3);
    for i in 0..5 {
        h.push_bar(bar(i, i));
    }
    let stamps: Vec<i64> = h.candles.iter().map(|c| c.timestamp).collect();
    assert_eq!(stamps, vec![4, 3, 2]);
    assert_eq!(h.latest(), Some(bar(4, 4)));
}

#[test]
fn simple_strategy_goes_long_when_flat() {
    let mut s = SimpleStrat {};
    let mut data = MarketData::new();
    let m = MarketPair::new("NQ", "");
    let flat = Position { size: 0, price: 0 };
    let ctx = SystemCtx { position: flat, market_pair: m.clone(), market_data: data.clone() };
    assert_eq!(s.generate_signal(ctx), None);
    data.push_bar(bar(10, 0));
    let ctx = SystemCtx { position: flat, market_pair: m.clone(), market_data: data.clone() };
    assert_eq!(s.generate_signal(ctx), Some(TradeSignal::Long));
    let long = Position { size: 1, price: 10 };
    let ctx = SystemCtx { position: long, market_pair: m, market_data: data };
    assert_eq!(s.generate_signal(ctx), None);
}

#[test]
fn rsi_closes_below_entry() {
    let mut s = Rsi { period: 14 };
    let mut data = MarketData::new();
    let m = MarketPair::new("BTC", "USD");
    let pos = Position { size: 1, price: 15 };
    let ctx = SystemCtx { position: pos, market_pair: m.clone(), market_data: data.clone() };
    assert_eq!(s.generate_signal(ctx), None);
    data.push_bar(bar(14, 0));
    let ctx = SystemCtx { position: pos, market_pair: m.clone(), market_data: data.clone() };
    assert_eq!(s.generate_signal(ctx), Some(TradeSignal::Close));
    data.push_bar(bar(15, 1));
    let ctx = SystemCtx { position: pos, market_pair: m, market_data: data };
    assert_eq!(s.generate_signal(ctx), None);
}

#[test]
fn evaluate_skips_market_without_position() {
    let mut t = trader("SUI", Strategy::Simple(SimpleStrat {}));
    t.poll_step(None, None, Some(MarketEvent::Ohlc(bar(12, 0))));
    assert!(t.evaluate(None).is_none());
    match t.evaluate(Some(Position { size: 0, price: 0 })) {
        Some(OrderEvent::Long(m)) => assert!(m == MarketPair::new("SUI", "USD")),
        _ => panic!("a flat market with data goes long"),
    }
    let mut r = trader("BTC", Strategy::Rsi(Rsi { period: 14 }));
    r.poll_step(None, None, Some(MarketEvent::Ohlc(bar(9, 0))));
    assert!(matches!(r.evaluate(Some(Position { size: -1, price: 10 })), Some(OrderEvent::Close(_))));
}

#[test]
fn one_market_end_to_end_opens_one_long() {
    let engine = OrderEngine;
    let sui = MarketPair::new("SUI", "USD");
    let mut p = ledger();
    p.insert_if_absent(sui.clone(), Position { size: 0, price: 0 });
    let mut t = trader("SUI", Strategy::Simple(SimpleStrat {}));
    let mut pending = Vec::new();
    for i in 0..10 {
        assert_eq!(t.poll_step(None, None, Some(MarketEvent::Ohlc(bar(10 + i, i)))), CycleControl::Continue);
        if let Some(intent) = t.evaluate(p.get(&sui)) {
            match engine.route(intent) {
                OrderAction::Fill(f) => pending.push(f),
                OrderAction::CloseNow(m) => p.close_position(&m),
                OrderAction::Ignore => {}
            }
        }
    }
    assert_eq!(pending.len(), 10);
    for f in pending {
        let price = engine.draw_fill_price();
        engine.complete_fill(&mut p, f, price);
    }
    assert_eq!(p.position_count(), 1);
    assert_eq!(p.get(&sui).map(|x| x.size), Some(1));
}

#[test]
fn fill_price_within_broker_range() {
    let engine = OrderEngine;
    let mut seen = std::collections::HashSet::new();
    for _ in 0..200 {
        let price = engine.draw_fill_price();
        assert!((MIN_FILL_PRICE..=MAX_FILL_PRICE).contains(&price));
        seen.insert(price);
    }
    assert!(seen.len() > 1);
}

#[test]
fn heikin_ashi_values() {
    let prev = Candle { open: 10, high: 14, low: 9, close: 13, volume: 0, timestamp: 0 };
    let cur = Candle { open: 13, high: 17, low: 12, close: 16, volume: 0, timestamp: 1 };
    let h = HeikinAshi::from_ohlc(cur, prev);
    assert_eq!(h, HeikinAshi { open: 11, high: 17, low: 0, close: 14 });
    let neg = Candle { open: -3, high: -1, low: -6, close: -4, volume: 0, timestamp: 2 };
    let h = HeikinAshi::from_ohlc(neg, neg);
    assert_eq!(h, HeikinAshi { open: -3, high: 0, low: -4, close: -3 });
}

#[test]
fn worker_pool_fits_every_market() {
    let traders = vec![
        trader("SUI", Strategy::Rsi(Rsi { period: 14 })),
        trader("SOL", Strategy::Simple(SimpleStrat {})),
        trader("BTC", Strategy::Rsi(Rsi { period: 14 })),
        trader("NQ", Strategy::Simple(SimpleStrat {})),
    ];
    let mut e = TradingEngine::new(Uuid::nil(), traders);
    assert_eq!(e.worker_count(), 4);
    let taken = e.take_traders();
    assert_eq!(taken.len(), 4);
    assert_eq!(e.traders.len(), 0);
    assert_eq!(e.worker_count(), 1);
}
