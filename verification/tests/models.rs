use risk_gate::config::Cfg;
use risk_gate::models::{Fill, Order, Quote, Side};

#[test]
fn test_side_enum() {
    assert_eq!(Side::Buy, Side::Buy);
    assert_eq!(Side::Sell, Side::Sell);
    assert_ne!(Side::Buy, Side::Sell);
}

#[test]
fn test_quote_struct() {
    let quote = Quote { bid: 9_950, ask: 10_050, ts: 0 };

    assert_eq!(quote.bid, 9_950);
    assert_eq!(quote.ask, 10_050);
}

#[test]
fn test_order_struct() {
    let order = Order { side: Side::Buy, qty: 100, px: 10_050 };

    assert_eq!(order.side, Side::Buy);
    assert_eq!(order.qty, 100);
    assert_eq!(order.px, 10_050);
}

#[test]
fn test_fill_struct() {
    let fill = Fill { side: Side::Sell, qty: 100, px: 9_950, ts: 0 };

    assert_eq!(fill.side, Side::Sell);
    assert_eq!(fill.qty, 100);
    assert_eq!(fill.px, 9_950);
}

#[test]
fn test_config_default() {
    let cfg = Cfg::default();

    assert_eq!(cfg.symbol, "XYZ");
    assert_eq!(cfg.tick_ms, 1);
    assert_eq!(cfg.tick_sz, 1);
    assert_eq!(cfg.max_pos, 10_000);
    assert_eq!(cfg.max_orders_s, 50_000);
    assert_eq!(cfg.max_drawdown, 100_000);
    assert_eq!(cfg.max_order_value, 10_000_000);
    assert_eq!(cfg.circuit_breaker_pct, 5);
    assert_eq!(cfg.circuit_breaker_duration, 60);
}

#[test]
fn test_config_custom() {
    let cfg = Cfg {
        symbol: "ABC".to_string(),
        tick_ms: 5,
        tick_sz: 5,
        max_pos: 5_000,
        max_orders_s: 25_000,
        max_drawdown: 50_000,
        max_order_value: 5_000_000,
        circuit_breaker_pct: 3,
        circuit_breaker_duration: 30,
    };

    assert_eq!(cfg.symbol, "ABC");
    assert_eq!(cfg.tick_ms, 5);
    assert_eq!(cfg.tick_sz, 5);
    assert_eq!(cfg.max_pos, 5_000);
    assert_eq!(cfg.max_orders_s, 25_000);
    assert_eq!(cfg.max_drawdown, 50_000);
    assert_eq!(cfg.max_order_value, 5_000_000);
    assert_eq!(cfg.circuit_breaker_pct, 3);
    assert_eq!(cfg.circuit_breaker_duration, 30);
}

#[test]
fn config_clone_keeps_every_field() {
    let cfg = Cfg::default();
    let copy = cfg.clone();
    assert_eq!(copy.symbol, cfg.symbol);
    assert_eq!(copy.max_pos, cfg.max_pos);
    assert_eq!(copy.max_orders_s, cfg.max_orders_s);
    assert_eq!(copy.circuit_breaker_duration, cfg.circuit_breaker_duration);
}
