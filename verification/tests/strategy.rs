use risk_gate::config::Cfg;
use risk_gate::models::{Fill, Order, Quote, Side};
use risk_gate::strategy::Logic;

#[test]
fn strategy_crosses_every_256th_quote() {
    let mut logic = Logic::new(Cfg::default());
    let mut proposals: Vec<(u64, Order)> = Vec::new();
    for i in 1..=600u64 {
        let quote = Quote { bid: 10_000 + i, ask: 10_010 + i, ts: i };
        if let Some(order) = logic.on_quote(&quote) {
            proposals.push((i, order));
        }
        logic.on_fill(&Fill { side: Side::Buy, qty: 1, px: 1, ts: i });
    }
    assert_eq!(
        proposals,
        vec![
            (256, Order { side: Side::Buy, qty: 100, px: 10_266 }),
            (512, Order { side: Side::Buy, qty: 100, px: 10_522 }),
        ]
    );
}
