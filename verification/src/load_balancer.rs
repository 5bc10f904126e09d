//! Spreading trades over executor instances.
//!
//! Instances are kept in the order in which they were added, each
//! identifier once. Only healthy instances are ever selected.

use std::collections::HashMap;
use vstd::prelude::*;
use crate::executors::{acknowledge, is_acknowledgement};
use crate::types::{ExecError, ExecReceipt, TradePlan};

verus! {

/// How the next instance is chosen.
#[derive(Clone, Debug)]
pub enum LoadBalancingStrategy {
    RoundRobin,
    LeastConnections,
    /// Weights by instance identifier. They are carried but not yet
    /// consulted: selection goes round like `RoundRobin`.
    WeightedRoundRobin { weights: HashMap<String, u32> },
}

/// One executor instance as the balancer sees it.
#[derive(Clone, Debug)]
pub struct ExecutorInstance {
    pub id: String,
    pub address: String,
    pub active_connections: u32,
    pub weight: u32,
    pub healthy: bool,
}

/// Totals over the instances of a balancer.
#[derive(Clone, Copy, Debug, PartialEq, Eq, Structural)]
pub struct LoadBalancerStats {
    pub total_instances: usize,
    pub healthy_instances: usize,
    pub total_connections: u32,
}

/// No two instances share an identifier.
pub open spec fn distinct_ids(s: Seq<ExecutorInstance>) -> bool {
    forall|i: int, j: int| 0 <= i < j < s.len() ==> s[i].id@ != s[j].id@
}

/// Some instance has the identifier.
pub open spec fn has_id(s: Seq<ExecutorInstance>, id: Seq<char>) -> bool {
    exists|i: int| 0 <= i < s.len() && #[trigger] s[i].id@ == id
}

/// The positions of the healthy instances, in order.
pub open spec fn healthy_indices(s: Seq<ExecutorInstance>) -> Seq<int>
    decreases s.len(),
{
    if s.len() == 0 {
        Seq::empty()
    } else if s.last().healthy {
        healthy_indices(s.drop_last()).push(s.len() - 1)
    } else {
        healthy_indices(s.drop_last())
    }
}

/// Among the given positions, the first whose instance has the fewest
/// active connections.
pub open spec fn least_loaded(s: Seq<ExecutorInstance>, idx: Seq<int>) -> int
    decreases idx.len(),
{
    if idx.len() <= 1 {
        idx[0]
    } else {
        let best = least_loaded(s, idx.drop_last());
        if s[idx.last()].active_connections < s[best].active_connections {
            idx.last()
        } else {
            best
        }
    }
}

/// Sum of the active connections of all instances.
pub open spec fn connections_total(s: Seq<ExecutorInstance>) -> nat
    decreases s.len(),
{
    if s.len() == 0 {
        0
    } else {
        connections_total(s.drop_last()) + s.last().active_connections as nat
    }
}

/// Whether the strategy takes the instances in turn.
pub open spec fn goes_round(strategy: LoadBalancingStrategy) -> bool {
    !(strategy is LeastConnections)
}

/// The position that a selection yields, if any instance is healthy.
pub open spec fn selected_index(
    strategy: LoadBalancingStrategy,
    s: Seq<ExecutorInstance>,
    cursor: nat,
) -> Option<int> {
    let healthy = healthy_indices(s);
    if healthy.len() == 0 {
        None
    } else if goes_round(strategy) {
        Some(healthy[(cursor % healthy.len()) as int])
    } else {
        Some(least_loaded(s, healthy))
    }
}

/// The round-robin cursor after a selection.
pub open spec fn cursor_after(strategy: LoadBalancingStrategy, s: Seq<ExecutorInstance>, cursor: nat) -> nat {
    let healthy = healthy_indices(s);
    if healthy.len() > 0 && goes_round(strategy) {
        (cursor + 1) % healthy.len()
    } else {
        cursor
    }
}

/// Every healthy position is a position of the sequence.
pub proof fn lemma_healthy_indices_in_range(s: Seq<ExecutorInstance>)
    ensures
        healthy_indices(s).len() <= s.len(),
        forall|k: int|
            0 <= k < healthy_indices(s).len() ==> 0 <= #[trigger] healthy_indices(s)[k] < s.len()
                && s[healthy_indices(s)[k]].healthy,
    decreases s.len(),
{
    if s.len() > 0 {
        lemma_healthy_indices_in_range(s.drop_last());
    }
}

/// The least loaded of a non-empty run of positions is one of them.
pub proof fn lemma_least_loaded_is_a_member(s: Seq<ExecutorInstance>, idx: Seq<int>)
    requires
        idx.len() > 0,
    ensures
        idx.contains(least_loaded(s, idx)),
    decreases idx.len(),
{
    if idx.len() > 1 {
        lemma_least_loaded_is_a_member(s, idx.drop_last());
        let best = least_loaded(s, idx.drop_last());
        let k = choose|k: int| 0 <= k < idx.drop_last().len() && idx.drop_last()[k] == best;
        assert(idx[k] == best);
        assert(idx[idx.len() - 1] == idx.last());
    } else {
        assert(idx[0] == least_loaded(s, idx));
    }
}

/// Distributes trades over executor instances.
pub struct LoadBalancer {
    instances: Vec<ExecutorInstance>,
    strategy: LoadBalancingStrategy,
    last_selected: usize,
}

impl LoadBalancer {
    /// The instances, in the order in which they were added.
    pub closed spec fn instances(&self) -> Seq<ExecutorInstance> {
        self.instances@
    }

    /// The strategy that the balancer was built with.
    pub closed spec fn strategy(&self) -> LoadBalancingStrategy {
        self.strategy
    }

    /// The round-robin cursor.
    pub closed spec fn cursor(&self) -> nat {
        self.last_selected as nat
    }

    /// No identifier occurs twice.
    pub open spec fn wf(&self) -> bool {
        distinct_ids(self.instances())
    }

    /// A balancer without instances.
    pub fn new(strategy: LoadBalancingStrategy) -> (r: Self)
        ensures
            r.wf(),
            r.instances() == Seq::<ExecutorInstance>::empty(),
            r.strategy() == strategy,
            r.cursor() == 0,
    {
        LoadBalancer { instances: Vec::new(), strategy, last_selected: 0 }
    }

    /// The position of the instance with the identifier, if there is one.
    fn find(&self, id: &String) -> (r: Option<usize>)
        ensures
            match r {
                Some(i) => i < self.instances().len() && self.instances()[i as int].id@ == id@,
                None => !has_id(self.instances(), id@),
            },
    {
        let mut i: usize = 0;
        while i < self.instances.len()
            invariant
                i <= self.instances@.len(),
                forall|j: int| 0 <= j < i ==> self.instances@[j].id@ != id@,
            decreases self.instances@.len() - i,
        {
            if self.instances[i].id == *id {
                return Some(i);
            }
            i = i + 1;
        }
        None
    }

    /// Adds an instance, or replaces the one with the same identifier.
    pub fn add_instance(&mut self, instance: ExecutorInstance)
        requires
            old(self).wf(),
        ensures
            final(self).wf(),
            final(self).strategy() == old(self).strategy(),
            final(self).cursor() == old(self).cursor(),
            !has_id(old(self).instances(), instance.id@) ==> final(self).instances() == old(
                self,
            ).instances().push(instance),
            has_id(old(self).instances(), instance.id@) ==> {
                &&& final(self).instances().len() == old(self).instances().len()
                &&& forall|j: int|
                    0 <= j < old(self).instances().len() ==> #[trigger] final(self).instances()[j]
                        == if old(self).instances()[j].id@ == instance.id@ {
                        instance
                    } else {
                        old(self).instances()[j]
                    }
            },
    {
        match self.find(&instance.id) {
            Some(i) => {
                self.instances.set(i, instance);
            },
            None => {
                self.instances.push(instance);
            },
        }
    }

    /// Removes the instance with the identifier, if there is one.
    pub fn remove_instance(&mut self, instance_id: &str)
        requires
            old(self).wf(),
        ensures
            final(self).wf(),
            final(self).strategy() == old(self).strategy(),
            final(self).cursor() == old(self).cursor(),
            !has_id(final(self).instances(), instance_id@),
            !has_id(old(self).instances(), instance_id@) ==> final(self).instances() == old(
                self,
            ).instances(),
            has_id(old(self).instances(), instance_id@) ==> exists|i: int|
                0 <= i < old(self).instances().len() && #[trigger] old(self).instances()[i].id@
                    == instance_id@ && final(self).instances() == old(self).instances().remove(i),
    {
        let id: String = instance_id.to_owned();
        match self.find(&id) {
            Some(i) => {
                self.instances.remove(i);
                assert forall|j: int| 0 <= j < self.instances@.len() implies self.instances@[j].id@
                    != instance_id@ by {
                    if j < i {
                        assert(self.instances@[j] == old(self).instances()[j]);
                    } else {
                        assert(self.instances@[j] == old(self).instances()[j + 1]);
                    }
                }
            },
            None => {},
        }
    }

    /// Marks the instance with the identifier healthy or unhealthy.
    pub fn set_instance_health(&mut self, instance_id: &str, healthy: bool)
        requires
            old(self).wf(),
        ensures
            final(self).wf(),
            final(self).strategy() == old(self).strategy(),
            final(self).cursor() == old(self).cursor(),
            final(self).instances().len() == old(self).instances().len(),
            forall|j: int|
                0 <= j < old(self).instances().len() ==> #[trigger] final(self).instances()[j]
                    == if old(self).instances()[j].id@ == instance_id@ {
                    ExecutorInstance { healthy, ..old(self).instances()[j] }
                } else {
                    old(self).instances()[j]
                },
    {
        let id: String = instance_id.to_owned();
        match self.find(&id) {
            Some(i) => {
                let updated = ExecutorInstance {
                    id: self.instances[i].id.clone(),
                    address: self.instances[i].address.clone(),
                    active_connections: self.instances[i].active_connections,
                    weight: self.instances[i].weight,
                    healthy,
                };
                self.instances.set(i, updated);
            },
            None => {},
        }
    }

    /// Sets the number of active connections of the instance with the identifier.
    pub fn update_connection_count(&mut self, instance_id: &str, count: u32)
        requires
            old(self).wf(),
        ensures
            final(self).wf(),
            final(self).strategy() == old(self).strategy(),
            final(self).cursor() == old(self).cursor(),
            final(self).instances().len() == old(self).instances().len(),
            forall|j: int|
                0 <= j < old(self).instances().len() ==> #[trigger] final(self).instances()[j]
                    == if old(self).instances()[j].id@ == instance_id@ {
                    ExecutorInstance { active_connections: count, ..old(self).instances()[j] }
                } else {
                    old(self).instances()[j]
                },
    {
        let id: String = instance_id.to_owned();
        match self.find(&id) {
            Some(i) => {
                let updated = ExecutorInstance {
                    id: self.instances[i].id.clone(),
                    address: self.instances[i].address.clone(),
                    active_connections: count,
                    weight: self.instances[i].weight,
                    healthy: self.instances[i].healthy,
                };
                self.instances.set(i, updated);
            },
            None => {},
        }
    }

    /// The positions of the healthy instances, in order.
    fn healthy_positions(&self) -> (r: Vec<usize>)
        ensures
            r@.len() == healthy_indices(self.instances()).len(),
            forall|k: int| 0 <= k < r@.len() ==> r@[k] as int == healthy_indices(self.instances())[k],
            forall|k: int| 0 <= k < r@.len() ==> (#[trigger] r@[k]) < self.instances().len(),
    {
        let mut found: Vec<usize> = Vec::new();
        let mut i: usize = 0;
        while i < self.instances.len()
            invariant
                i <= self.instances@.len(),
                found@.len() == healthy_indices(self.instances@.take(i as int)).len(),
                forall|k: int|
                    0 <= k < found@.len() ==> found@[k] as int == healthy_indices(
                        self.instances@.take(i as int),
                    )[k],
                forall|k: int| 0 <= k < found@.len() ==> (#[trigger] found@[k]) < i,
            decreases self.instances@.len() - i,
        {
            proof {
                assert(self.instances@.take(i + 1).drop_last() == self.instances@.take(i as int));
                assert(self.instances@.take(i + 1).last() == self.instances@[i as int]);
            }
            if self.instances[i].healthy {
                found.push(i);
            }
            i = i + 1;
        }
        proof {
            assert(self.instances@.take(i as int) == self.instances@);
        }
        found
    }

    /// Selects the next healthy instance by the balancer's strategy and
    /// hands out a copy of it; `None` when no instance is healthy.
    pub fn select_instance(&mut self) -> (r: Option<ExecutorInstance>)
        requires
            old(self).wf(),
        ensures
            final(self).wf(),
            final(self).instances() == old(self).instances(),
            final(self).strategy() == old(self).strategy(),
            final(self).cursor() == cursor_after(
                old(self).strategy(),
                old(self).instances(),
                old(self).cursor(),
            ),
            match selected_index(old(self).strategy(), old(self).instances(), old(self).cursor()) {
                Some(i) => 0 <= i < old(self).instances().len() && r == Some(
                    old(self).instances()[i],
                ) && old(self).instances()[i].healthy,
                None => r is None,
            },
    {
        let healthy: Vec<usize> = self.healthy_positions();
        proof {
            lemma_healthy_indices_in_range(self.instances@);
        }
        if healthy.len() == 0 {
            return None;
        }
        let ghost idx = healthy_indices(self.instances@);
        proof {
            assert(healthy@.map_values(|p: usize| p as int) == idx);
            lemma_least_loaded_is_a_member(self.instances@, idx);
        }
        let at: usize = match &self.strategy {
            LoadBalancingStrategy::LeastConnections => self.select_least_connections(&healthy),
            _ => {
                let index: usize = self.last_selected % healthy.len();
                proof {
                    let n = healthy@.len() as int;
                    vstd::arithmetic::div_mod::lemma_add_mod_noop(self.last_selected as int, 1, n);
                    if n > 1 {
                        vstd::arithmetic::div_mod::lemma_small_mod(1, n as nat);
                    }
                }
                self.last_selected = (index + 1) % healthy.len();
                healthy[index]
            },
        };
        Some(
            ExecutorInstance {
                id: self.instances[at].id.clone(),
                address: self.instances[at].address.clone(),
                active_connections: self.instances[at].active_connections,
                weight: self.instances[at].weight,
                healthy: self.instances[at].healthy,
            },
        )
    }

    /// Among the given positions, the first with the fewest active connections.
    fn select_least_connections(&self, healthy: &Vec<usize>) -> (r: usize)
        requires
            healthy@.len() > 0,
            forall|k: int| 0 <= k < healthy@.len() ==> (#[trigger] healthy@[k]) < self.instances().len(),
        ensures
            r as int == least_loaded(self.instances(), healthy@.map_values(|p: usize| p as int)),
            r < self.instances().len(),
    {
        let ghost idx = healthy@.map_values(|p: usize| p as int);
        let mut best: usize = healthy[0];
        let mut k: usize = 1;
        proof {
            assert(idx.take(1).len() == 1);
            assert(idx.take(1)[0] == idx[0]);
        }
        while k < healthy.len()
            invariant
                1 <= k <= healthy@.len(),
                idx == healthy@.map_values(|p: usize| p as int),
                best as int == least_loaded(self.instances@, idx.take(k as int)),
                best < self.instances@.len(),
                forall|j: int| 0 <= j < healthy@.len() ==> (#[trigger] healthy@[j]) < self.instances@.len(),
            decreases healthy@.len() - k,
        {
            proof {
                assert(idx.take(k + 1).drop_last() == idx.take(k as int));
                assert(idx.take(k + 1).last() == idx[k as int]);
            }
            let candidate: usize = healthy[k];
            if self.instances[candidate].active_connections < self.instances[best].active_connections {
                best = candidate;
            }
            k = k + 1;
        }
        proof {
            assert(idx.take(k as int) == idx);
        }
        best
    }

    /// Sends a trade to the next healthy instance. No instance is connected:
    /// the selection is made and the trade acknowledged.
    pub fn execute_trade(&mut self, _plan: &TradePlan) -> (r: Result<ExecReceipt, ExecError>)
        requires
            old(self).wf(),
        ensures
            final(self).wf(),
            final(self).instances() == old(self).instances(),
            final(self).strategy() == old(self).strategy(),
            final(self).cursor() == cursor_after(
                old(self).strategy(),
                old(self).instances(),
                old(self).cursor(),
            ),
            healthy_indices(old(self).instances()).len() > 0 ==> r is Ok && is_acknowledgement(
                r->Ok_0,
                "0xload-balanced-tx"@,
            ),
            healthy_indices(old(self).instances()).len() == 0 ==> r == Err::<ExecReceipt, ExecError>(
                ExecError::NoHealthyInstance,
            ),
    {
        match self.select_instance() {
            Some(_instance) => Ok(acknowledge("0xload-balanced-tx")),
            None => Err(ExecError::NoHealthyInstance),
        }
    }

    /// Counts the instances, the healthy ones, and the active connections;
    /// the connection count stops at the top of its range.
    pub fn get_stats(&self) -> (r: LoadBalancerStats)
        ensures
            r.total_instances == self.instances().len(),
            r.healthy_instances == healthy_indices(self.instances()).len(),
            r.total_connections == if connections_total(self.instances()) > u32::MAX {
                u32::MAX as nat
            } else {
                connections_total(self.instances())
            },
    {
        let mut healthy_count: usize = 0;
        let mut total: u128 = 0;
        let mut i: usize = 0;
        while i < self.instances.len()
            invariant
                i <= self.instances@.len(),
                healthy_count == healthy_indices(self.instances@.take(i as int)).len(),
                healthy_count <= i,
                total == connections_total(self.instances@.take(i as int)),
                total <= i * u32::MAX,
            decreases self.instances@.len() - i,
        {
            proof {
                assert(self.instances@.take(i + 1).drop_last() == self.instances@.take(i as int));
                assert(self.instances@.take(i + 1).last() == self.instances@[i as int]);
                assert(i * u32::MAX + u32::MAX <= usize::MAX * u32::MAX + u32::MAX)
                    by (nonlinear_arith)
                    requires
                        i <= usize::MAX,
                ;
            }
            if self.instances[i].healthy {
                healthy_count = healthy_count + 1;
            }
            total = total + self.instances[i].active_connections as u128;
            i = i + 1;
        }
        proof {
            assert(self.instances@.take(i as int) == self.instances@);
        }
        LoadBalancerStats {
            total_instances: self.instances.len(),
            healthy_instances: healthy_count,
            total_connections: if total > u32::MAX as u128 {
                u32::MAX
            } else {
                total as u32
            },
        }
    }
}

} // verus!
