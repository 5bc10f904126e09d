use risk_gate::config::Cfg;
use risk_gate::models::{Order, Side};
use risk_gate::risk::Risk;

const SECOND: u64 = 1_000_000_000;

#[test]
fn basic_gate_starts_flat() {
    let risk = Risk::new(&Cfg::default(), 0);
    assert_eq!(risk.position(), 0);
}

#[test]
fn basic_gate_limits_the_rate_per_window() {
    let mut cfg = Cfg::default();
    cfg.max_orders_s = 2;
    let mut risk = Risk::new(&cfg, 0);
    let order = Order { side: Side::Buy, qty: 100, px: 10_000 };
    assert!(risk.allow(&order, 1));
    assert!(risk.allow(&order, 2));
    assert!(!risk.allow(&order, 3));
    assert!(!risk.allow(&order, SECOND - 1));
    assert!(risk.allow(&order, SECOND));
    assert_eq!(risk.position(), 300);
}

#[test]
fn basic_gate_limits_the_position() {
    let mut cfg = Cfg::default();
    cfg.max_pos = 100;
    let mut risk = Risk::new(&cfg, 0);
    assert!(!risk.allow(&Order { side: Side::Buy, qty: 150, px: 10_000 }, 1));
    assert!(!risk.allow(&Order { side: Side::Sell, qty: 150, px: 10_000 }, 2));
    assert_eq!(risk.position(), 0);
    assert!(risk.allow(&Order { side: Side::Sell, qty: 100, px: 10_000 }, 3));
    assert_eq!(risk.position(), -100);
    assert!(!risk.allow(&Order { side: Side::Sell, qty: 1, px: 10_000 }, 4));
    assert!(risk.allow(&Order { side: Side::Buy, qty: 200, px: 10_000 }, 5));
    assert_eq!(risk.position(), 100);
}

#[test]
fn basic_gate_ignores_order_value() {
    let mut cfg = Cfg::default();
    cfg.max_order_value = 1;
    let mut risk = Risk::new(&cfg, 0);
    assert!(risk.allow(&Order { side: Side::Buy, qty: 10, px: 10_000 }, 1));
}

#[test]
fn basic_gate_refuses_invalid_orders() {
    let mut cfg = Cfg::default();
    cfg.max_orders_s = 1;
    let mut risk = Risk::new(&cfg, 0);
    assert!(!risk.allow(&Order { side: Side::Buy, qty: 0, px: 10_000 }, 0));
    assert!(!risk.allow(&Order { side: Side::Buy, qty: 1, px: 0 }, 0));
    assert!(risk.allow(&Order { side: Side::Buy, qty: 1, px: 1 }, 0));
    assert_eq!(risk.position(), 1);
}
