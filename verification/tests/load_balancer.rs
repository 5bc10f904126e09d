use risk_gate::load_balancer::{ExecutorInstance, LoadBalancer, LoadBalancingStrategy};
use risk_gate::types::{
    ChainRef, ExecError, ExecMode, ExitRules, GasPolicy, TradePlan,
};
use std::collections::HashMap;

fn instance(id: &str, address: &str, active_connections: u32, healthy: bool) -> ExecutorInstance {
    ExecutorInstance {
        id: id.to_string(),
        address: address.to_string(),
        active_connections,
        weight: 1,
        healthy,
    }
}

#[test]
fn test_load_balancer_creation() {
    let lb = LoadBalancer::new(LoadBalancingStrategy::RoundRobin);
    let stats = lb.get_stats();
    assert_eq!(stats.total_instances, 0);
    assert_eq!(stats.healthy_instances, 0);
}

#[test]
fn test_instance_management() {
    let mut lb = LoadBalancer::new(LoadBalancingStrategy::RoundRobin);

    let instance = ExecutorInstance {
        id: "executor-1".to_string(),
        address: "127.0.0.1:8080".to_string(),
        active_connections: 0,
        weight: 1,
        healthy: true,
    };

    lb.add_instance(instance);
    let stats = lb.get_stats();
    assert_eq!(stats.total_instances, 1);
    assert_eq!(stats.healthy_instances, 1);

    lb.remove_instance("executor-1");
    let stats = lb.get_stats();
    assert_eq!(stats.total_instances, 0);
}

#[test]
fn test_round_robin_selection() {
    let mut lb = LoadBalancer::new(LoadBalancingStrategy::RoundRobin);

    lb.add_instance(instance("executor-1", "127.0.0.1:8080", 0, true));
    lb.add_instance(instance("executor-2", "127.0.0.1:8081", 0, true));

    let selected1 = lb.select_instance().unwrap();
    let selected2 = lb.select_instance().unwrap();
    let selected3 = lb.select_instance().unwrap();

    assert_ne!(selected1.id, selected2.id);
    assert_eq!(selected1.id, selected3.id);
}

#[test]
fn test_least_connections_selection() {
    let mut lb = LoadBalancer::new(LoadBalancingStrategy::LeastConnections);

    lb.add_instance(instance("executor-1", "127.0.0.1:8080", 5, true));
    lb.add_instance(instance("executor-2", "127.0.0.1:8081", 2, true));

    let selected = lb.select_instance().unwrap();
    assert_eq!(selected.id, "executor-2");
}

#[test]
fn test_unhealthy_instance_filtering() {
    let mut lb = LoadBalancer::new(LoadBalancingStrategy::RoundRobin);

    lb.add_instance(instance("executor-1", "127.0.0.1:8080", 0, true));
    lb.add_instance(instance("executor-2", "127.0.0.1:8081", 0, false));

    let selected = lb.select_instance().unwrap();
    assert_eq!(selected.id, "executor-1");
}

#[test]
fn test_horizontal_scaling() {
    let mut lb = LoadBalancer::new(LoadBalancingStrategy::RoundRobin);

    lb.add_instance(instance("executor-1", "127.0.0.1:8080", 0, true));
    lb.add_instance(instance("executor-2", "127.0.0.1:8081", 0, true));

    let stats = lb.get_stats();
    assert_eq!(stats.total_instances, 2);
    assert_eq!(stats.healthy_instances, 2);

    let selected1 = lb.select_instance().unwrap();
    let selected2 = lb.select_instance().unwrap();
    let selected3 = lb.select_instance().unwrap();

    assert_ne!(selected1.id, selected2.id);
    assert_eq!(selected1.id, selected3.id);

    let mut lb_least = LoadBalancer::new(LoadBalancingStrategy::LeastConnections);

    lb_least.add_instance(instance("executor-low", "127.0.0.1:8082", 2, true));
    lb_least.add_instance(instance("executor-high", "127.0.0.1:8083", 5, true));

    let selected = lb_least.select_instance().unwrap();
    assert_eq!(selected.id, "executor-low");
}

#[test]
fn test_load_testing_optimization() {
    let mut lb = LoadBalancer::new(LoadBalancingStrategy::LeastConnections);

    for i in 0..5u32 {
        lb.add_instance(instance(
            &format!("executor-{}", i),
            &format!("127.0.0.1:{}", 8080 + i),
            i * 10,
            true,
        ));
    }

    let mut connection_counts = vec![0u32; 5];
    for _ in 0..100 {
        if let Some(instance) = lb.select_instance() {
            let index = instance.id.split('-').last().unwrap().parse::<usize>().unwrap();
            connection_counts[index] += 1;
        }
    }

    let stats = lb.get_stats();
    assert_eq!(stats.total_instances, 5);
    assert!(stats.healthy_instances >= 4);
    assert_eq!(connection_counts, vec![100, 0, 0, 0, 0]);
    assert_eq!(stats.total_connections, 100);
}

#[test]
fn round_robin_goes_through_the_healthy_in_order_of_arrival() {
    let mut lb = LoadBalancer::new(LoadBalancingStrategy::RoundRobin);
    lb.add_instance(instance("a", "h:1", 0, true));
    lb.add_instance(instance("b", "h:2", 0, false));
    lb.add_instance(instance("c", "h:3", 0, true));
    lb.add_instance(instance("d", "h:4", 0, true));
    let picked: Vec<String> = (0..7).map(|_| lb.select_instance().unwrap().id).collect();
    assert_eq!(picked, vec!["a", "c", "d", "a", "c", "d", "a"]);
    lb.set_instance_health("b", true);
    lb.set_instance_health("a", false);
    // The cursor stands at 1: of b, c, d that is c.
    let picked: Vec<String> = (0..4).map(|_| lb.select_instance().unwrap().id).collect();
    assert_eq!(picked, vec!["c", "d", "b", "c"]);
}

#[test]
fn weighted_round_robin_goes_round() {
    let mut weights = HashMap::new();
    weights.insert("a".to_string(), 10u32);
    weights.insert("b".to_string(), 1u32);
    let mut lb = LoadBalancer::new(LoadBalancingStrategy::WeightedRoundRobin { weights });
    lb.add_instance(instance("a", "h:1", 9, true));
    lb.add_instance(instance("b", "h:2", 0, true));
    let picked: Vec<String> = (0..4).map(|_| lb.select_instance().unwrap().id).collect();
    assert_eq!(picked, vec!["a", "b", "a", "b"]);
}

#[test]
fn least_connections_takes_the_first_of_equals_and_skips_the_unhealthy() {
    let mut lb = LoadBalancer::new(LoadBalancingStrategy::LeastConnections);
    lb.add_instance(instance("a", "h:1", 3, true));
    lb.add_instance(instance("b", "h:2", 0, false));
    lb.add_instance(instance("c", "h:3", 1, true));
    lb.add_instance(instance("d", "h:4", 1, true));
    assert_eq!(lb.select_instance().unwrap().id, "c");
    assert_eq!(lb.select_instance().unwrap().id, "c");
    lb.update_connection_count("c", 2);
    assert_eq!(lb.select_instance().unwrap().id, "d");
    lb.update_connection_count("a", 1);
    let selected = lb.select_instance().unwrap();
    assert_eq!(selected.id, "a");
    assert_eq!(selected.address, "h:1");
    assert_eq!(selected.active_connections, 1);
    assert!(selected.healthy);
}

#[test]
fn adding_a_known_identifier_replaces_in_place() {
    let mut lb = LoadBalancer::new(LoadBalancingStrategy::RoundRobin);
    lb.add_instance(instance("a", "h:1", 1, true));
    lb.add_instance(instance("b", "h:2", 2, true));
    lb.add_instance(instance("a", "h:9", 7, true));
    let stats = lb.get_stats();
    assert_eq!(stats.total_instances, 2);
    assert_eq!(stats.total_connections, 9);
    let first = lb.select_instance().unwrap();
    assert_eq!((first.id.as_str(), first.address.as_str()), ("a", "h:9"));
    lb.remove_instance("missing");
    assert_eq!(lb.get_stats().total_instances, 2);
    lb.remove_instance("a");
    assert_eq!(lb.select_instance().unwrap().id, "b");
    assert_eq!(lb.get_stats().total_connections, 2);
}

#[test]
fn nothing_healthy_means_no_selection() {
    let mut lb = LoadBalancer::new(LoadBalancingStrategy::RoundRobin);
    assert!(lb.select_instance().is_none());
    lb.add_instance(instance("a", "h:1", 0, true));
    lb.set_instance_health("a", false);
    assert!(lb.select_instance().is_none());
    assert_eq!(lb.get_stats().healthy_instances, 0);
    lb.set_instance_health("nobody", true);
    assert!(lb.select_instance().is_none());
    lb.set_instance_health("a", true);
    assert_eq!(lb.select_instance().unwrap().id, "a");
}

#[test]
fn connection_total_stops_at_the_top() {
    let mut lb = LoadBalancer::new(LoadBalancingStrategy::RoundRobin);
    lb.add_instance(instance("a", "h:1", u32::MAX, true));
    lb.add_instance(instance("b", "h:2", 5, false));
    let stats = lb.get_stats();
    assert_eq!(stats.total_connections, u32::MAX);
    assert_eq!(stats.healthy_instances, 1);
    assert_eq!(stats.total_instances, 2);
}

#[test]
fn balanced_trade_needs_a_healthy_instance() {
    let plan = TradePlan {
        chain: ChainRef { name: "ethereum".to_string(), id: 1 },
        router: "0xRouter".to_string(),
        token_in: "0xTokenIn".to_string(),
        token_out: "0xTokenOut".to_string(),
        amount_in: 1000000000000000000,
        min_out: 900000000000000000,
        mode: ExecMode::Mempool,
        gas: GasPolicy { max_fee_gwei: 50, max_priority_gwei: 2 },
        exits: ExitRules { take_profit_pct: Some(10), stop_loss_pct: Some(5), trailing_pct: None },
        idem_key: "k".to_string(),
    };
    let mut lb = LoadBalancer::new(LoadBalancingStrategy::RoundRobin);
    assert_eq!(lb.execute_trade(&plan).unwrap_err(), ExecError::NoHealthyInstance);
    lb.add_instance(instance("a", "h:1", 0, true));
    lb.add_instance(instance("b", "h:2", 0, true));
    let receipt = lb.execute_trade(&plan).unwrap();
    assert_eq!(receipt.tx_hash, "0xload-balanced-tx");
    assert!(receipt.success);
    // The trade took its turn in the round.
    assert_eq!(lb.select_instance().unwrap().id, "b");
}
