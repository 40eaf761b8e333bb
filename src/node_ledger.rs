//! All registered nodes together with the global registry, keyed by
//! operator. Its invariant ties the registry's aggregates to the nodes: the
//! total stake is the sum of the nodes' stakes, and the node count is the
//! number of nodes ever registered.
use vstd::prelude::*;
use crate::ledger::{EscrowTransfer, Identity};
use crate::node_registry::{
    claim_error, deactivate_error, earnings_error, heartbeat_error, reactivate_error,
    register_error, reputation_error, slash_error, stake_error, unstake_error, withdraw_error,
    claim_transfer, earnings_effect, heartbeat_effect, is_new_node, slash_effect, slash_transfer,
    stake_effect, stake_transfer, unstake_effect, withdraw_effect, withdraw_transfer,
    claim_earnings, deactivate_node, initialize, reactivate_node, record_earnings, register_node,
    lemma_slash_amount_bounded, slash_node, stake_sol, unstake_sol, update_heartbeat, update_reputation, withdraw_unstaked,
    ErrorCode, GlobalRegistry, NodeAccount, ViolationType,
};

verus! {

/// One registry operation, as issued by an authenticated signer.
#[derive(Clone, Debug)]
pub enum NodeOp {
    Register { location: String, ip_address: String, bandwidth_gbps: u16 },
    Stake { amount: u64 },
    Unstake { amount: u64 },
    WithdrawUnstaked,
    Heartbeat { bandwidth_served_gb: u64 },
    UpdateReputation { operator: Identity, new_score: u8 },
    Slash { operator: Identity, violation_type: ViolationType },
    RecordEarnings { amount: u64 },
    ClaimEarnings,
    Deactivate,
    Reactivate,
}

/// The operator whose node an operation acts on: the one it names, or else
/// the signer.
pub open spec fn op_target(signer: Identity, op: NodeOp) -> Identity {
    match op {
        NodeOp::UpdateReputation { operator, .. } => operator,
        NodeOp::Slash { operator, .. } => operator,
        _ => signer,
    }
}

/// The error, if any, with which `op` by `signer` fails on a registered `node`.
pub open spec fn op_error(
    registry: GlobalRegistry,
    node: NodeAccount,
    signer: Identity,
    op: NodeOp,
    now: i64,
) -> Option<ErrorCode> {
    match op {
        NodeOp::Register { .. } => Some(ErrorCode::NodeAlreadyRegistered),
        NodeOp::Stake { amount } => stake_error(registry, node, signer, amount),
        NodeOp::Unstake { amount } => unstake_error(node, signer, amount, now),
        NodeOp::WithdrawUnstaked => withdraw_error(registry, node, signer, now),
        NodeOp::Heartbeat { bandwidth_served_gb } => heartbeat_error(
            registry,
            node,
            signer,
            bandwidth_served_gb,
        ),
        NodeOp::UpdateReputation { new_score, .. } => reputation_error(registry, signer, new_score),
        NodeOp::Slash { violation_type, .. } => slash_error(registry, node, signer, violation_type),
        NodeOp::RecordEarnings { amount } => earnings_error(registry, node, signer, amount),
        NodeOp::ClaimEarnings => claim_error(node, signer),
        NodeOp::Deactivate => deactivate_error(node, signer),
        NodeOp::Reactivate => reactivate_error(node, signer),
    }
}

/// Registry, target node and returned transfer after `op` by `signer`
/// succeeds on a registered `node`: what the single-node operation gives.
pub open spec fn op_outcome(
    registry: GlobalRegistry,
    node: NodeAccount,
    signer: Identity,
    op: NodeOp,
    now: i64,
) -> (GlobalRegistry, NodeAccount, Option<EscrowTransfer>) {
    match op {
        NodeOp::Register { .. } => (registry, node, None),
        NodeOp::Stake { amount } => {
            let (reg, n) = stake_effect(registry, node, amount);
            (reg, n, Some(stake_transfer(signer, amount)))
        },
        NodeOp::Unstake { .. } => (registry, unstake_effect(node, now), None),
        NodeOp::WithdrawUnstaked => {
            let (reg, n) = withdraw_effect(registry, node);
            (reg, n, Some(withdraw_transfer(signer, node)))
        },
        NodeOp::Heartbeat { bandwidth_served_gb } => {
            let (reg, n) = heartbeat_effect(registry, node, bandwidth_served_gb, now);
            (reg, n, None)
        },
        NodeOp::UpdateReputation { new_score, .. } => (
            registry,
            NodeAccount { reputation: new_score, ..node },
            None,
        ),
        NodeOp::Slash { violation_type, .. } => {
            let (reg, n) = slash_effect(registry, node, violation_type);
            (reg, n, Some(slash_transfer(registry, node, violation_type)))
        },
        NodeOp::RecordEarnings { amount } => {
            let (reg, n) = earnings_effect(registry, node, amount);
            (reg, n, None)
        },
        NodeOp::ClaimEarnings => (
            registry,
            NodeAccount { earnings_accumulated: 0, ..node },
            Some(claim_transfer(signer, node)),
        ),
        NodeOp::Deactivate => (registry, NodeAccount { is_active: false, ..node }, None),
        NodeOp::Reactivate => (registry, NodeAccount { is_active: true, ..node }, None),
    }
}

pub struct NodeLedger {
    registry: GlobalRegistry,
    nodes: Vec<NodeAccount>,
}

/// Sum of the stakes of `nodes`.
pub open spec fn stake_sum(nodes: Seq<NodeAccount>) -> int
    decreases nodes.len(),
{
    if nodes.len() == 0 {
        0
    } else {
        stake_sum(nodes.drop_last()) + nodes.last().stake_amount
    }
}

proof fn lemma_stake_sum_push(nodes: Seq<NodeAccount>, node: NodeAccount)
    ensures
        stake_sum(nodes.push(node)) == stake_sum(nodes) + node.stake_amount,
{
    assert(nodes.push(node).drop_last() =~= nodes);
}

proof fn lemma_stake_sum_update(nodes: Seq<NodeAccount>, i: int, node: NodeAccount)
    requires
        0 <= i < nodes.len(),
    ensures
        stake_sum(nodes.update(i, node)) == stake_sum(nodes) - nodes[i].stake_amount
            + node.stake_amount,
    decreases nodes.len(),
{
    if i < nodes.len() - 1 {
        lemma_stake_sum_update(nodes.drop_last(), i, node);
        assert(nodes.update(i, node).drop_last() =~= nodes.drop_last().update(i, node));
    } else {
        assert(nodes.update(i, node).drop_last() =~= nodes.drop_last());
    }
}

impl NodeLedger {
    pub closed spec fn registry_state(&self) -> GlobalRegistry {
        self.registry
    }

    pub closed spec fn node_states(&self) -> Seq<NodeAccount> {
        self.nodes@
    }

    /// The registry's aggregates agree with the nodes, and no operator has
    /// two nodes.
    pub open spec fn wf(&self) -> bool {
        &&& self.registry_state().total_stake == stake_sum(self.node_states())
        &&& self.registry_state().total_nodes == self.node_states().len()
        &&& forall|i: int, j: int|
            0 <= i < j < self.node_states().len() ==> self.node_states()[i].operator
                != self.node_states()[j].operator
    }

    /// A registry with no nodes.
    pub fn new(authority: Identity, protocol_fee_vault: Identity, now: i64) -> (r: NodeLedger)
        ensures
            r.wf(),
            r.node_states().len() == 0,
            r.registry_state().authority == authority,
            r.registry_state().protocol_fee_vault == protocol_fee_vault,
    {
        let (registry, _event) = initialize(authority, protocol_fee_vault, now);
        NodeLedger { registry, nodes: Vec::new() }
    }

    /// The global registry record.
    pub fn registry(&self) -> (r: GlobalRegistry)
        ensures
            r == self.registry_state(),
    {
        self.registry
    }

    /// The number of registered nodes.
    pub fn node_count(&self) -> (r: usize)
        ensures
            r == self.node_states().len(),
    {
        self.nodes.len()
    }

    /// The node at position `i`, in order of registration.
    pub fn node(&self, i: usize) -> (r: &NodeAccount)
        requires
            i < self.node_states().len(),
        ensures
            *r == self.node_states()[i as int],
    {
        &self.nodes[i]
    }

    /// The position of the node run by `operator`, if one is registered.
    pub fn find_node(&self, operator: Identity) -> (r: Option<usize>)
        ensures
            match r {
                Some(i) => i < self.node_states().len() && self.node_states()[i as int].operator
                    == operator,
                None => forall|i: int|
                    0 <= i < self.node_states().len() ==> self.node_states()[i].operator
                        != operator,
            },
    {
        let mut i: usize = 0;
        while i < self.nodes.len()
            invariant
                i <= self.nodes@.len(),
                forall|k: int| 0 <= k < i ==> self.nodes@[k].operator != operator,
            decreases self.nodes@.len() - i,
        {
            if self.nodes[i].operator == operator {
                return Some(i);
            }
            i = i + 1;
        }
        None
    }

    /// Whether a node is registered for `operator`.
    pub open spec fn has_node(&self, operator: Identity) -> bool {
        exists|i: int| 0 <= i < self.node_states().len() && self.node_states()[i].operator == operator
    }

    /// Applies one operation for `signer`. The operation acts on the node of
    /// the operator it names (reputation updates and slashing) or else on the
    /// signer's own node, and fails exactly as the single-node operation
    /// would; registration adds a node for the signer. Every operation keeps
    /// the registry's aggregates in agreement with the nodes; a failed one
    /// changes nothing, and a successful one changes no other node.
    pub fn apply(&mut self, signer: Identity, op: NodeOp, now: i64) -> (r: Result<
        Option<EscrowTransfer>,
        ErrorCode,
    >)
        requires
            old(self).wf(),
        ensures
            final(self).wf(),
            r is Err ==> final(self).registry_state() == old(self).registry_state()
                && final(self).node_states() == old(self).node_states(),
            !(op is Register) && !old(self).has_node(op_target(signer, op)) ==> r == Err::<
                Option<EscrowTransfer>,
                ErrorCode,
            >(ErrorCode::NodeNotRegistered),
            op is Register && old(self).has_node(signer) ==> r == Err::<
                Option<EscrowTransfer>,
                ErrorCode,
            >(ErrorCode::NodeAlreadyRegistered),
            match op {
                NodeOp::Register { location, ip_address, bandwidth_gbps } => !old(self).has_node(
                    signer,
                ) ==> match register_error(
                    old(self).registry_state(),
                    location@,
                    ip_address@,
                    bandwidth_gbps,
                ) {
                    Some(e) => r == Err::<Option<EscrowTransfer>, ErrorCode>(e),
                    None => {
                        let n = old(self).node_states().len();
                        &&& r == Ok::<Option<EscrowTransfer>, ErrorCode>(None)
                        &&& final(self).node_states().len() == n + 1
                        &&& final(self).node_states().subrange(0, n as int)
                            == old(self).node_states()
                        &&& is_new_node(
                            final(self).node_states()[n as int],
                            signer,
                            location@,
                            ip_address@,
                            bandwidth_gbps,
                            now,
                        )
                        &&& final(self).registry_state() == (GlobalRegistry {
                            total_nodes: (old(self).registry_state().total_nodes + 1) as u32,
                            ..old(self).registry_state()
                        })
                    },
                },
                _ => forall|i: int|
                    0 <= i < old(self).node_states().len() && old(self).node_states()[i].operator
                        == op_target(signer, op) ==> match op_error(
                        old(self).registry_state(),
                        old(self).node_states()[i],
                        signer,
                        op,
                        now,
                    ) {
                        Some(e) => r == Err::<Option<EscrowTransfer>, ErrorCode>(e),
                        None => {
                            let (reg, node, transfer) = op_outcome(
                                old(self).registry_state(),
                                old(self).node_states()[i],
                                signer,
                                op,
                                now,
                            );
                            &&& r == Ok::<Option<EscrowTransfer>, ErrorCode>(transfer)
                            &&& final(self).registry_state() == reg
                            &&& final(self).node_states()[i] == node
                            &&& final(self).node_states().len() == old(self).node_states().len()
                            &&& forall|j: int|
                                0 <= j < old(self).node_states().len() && j != i
                                    ==> final(self).node_states()[j] == old(
                                    self,
                                ).node_states()[j]
                        },
                    },
            },
    {
        let target = match &op {
            NodeOp::UpdateReputation { operator, .. } => *operator,
            NodeOp::Slash { operator, .. } => *operator,
            _ => signer,
        };
        let found = self.find_node(target);
        if let NodeOp::Register { location, ip_address, bandwidth_gbps } = op {
            if found.is_some() {
                return Err(ErrorCode::NodeAlreadyRegistered);
            }
            let ghost old_nodes = self.nodes@;
            match register_node(&mut self.registry, signer, location, ip_address, bandwidth_gbps, now) {
                Ok((node, _event)) => {
                    self.nodes.push(node);
                    proof {
                        lemma_stake_sum_push(old_nodes, self.nodes@.last());
                        assert(self.nodes@.drop_last() =~= old_nodes);
                    }
                    return Ok(None);
                },
                Err(e) => {
                    return Err(e);
                },
            }
        }
        let i = match found {
            Some(i) => i,
            None => {
                return Err(ErrorCode::NodeNotRegistered);
            },
        };
        let ghost old_nodes = self.nodes@;
        let r = match op {
            NodeOp::Register { .. } => Err(ErrorCode::NodeAlreadyRegistered),
            NodeOp::Stake { amount } => match stake_sol(
                &mut self.registry,
                &mut self.nodes[i],
                signer,
                amount,
                now,
            ) {
                Ok((_event, transfer)) => Ok(Some(transfer)),
                Err(e) => Err(e),
            },
            NodeOp::Unstake { amount } => match unstake_sol(&mut self.nodes[i], signer, amount, now) {
                Ok(_event) => Ok(None),
                Err(e) => Err(e),
            },
            NodeOp::WithdrawUnstaked => match withdraw_unstaked(
                &mut self.registry,
                &mut self.nodes[i],
                signer,
                now,
            ) {
                Ok((_event, transfer)) => Ok(Some(transfer)),
                Err(e) => Err(e),
            },
            NodeOp::Heartbeat { bandwidth_served_gb } => match update_heartbeat(
                &mut self.registry,
                &mut self.nodes[i],
                signer,
                bandwidth_served_gb,
                now,
            ) {
                Ok(_event) => Ok(None),
                Err(e) => Err(e),
            },
            NodeOp::UpdateReputation { operator: _, new_score } => match update_reputation(
                &self.registry,
                &mut self.nodes[i],
                signer,
                new_score,
                now,
            ) {
                Ok(_event) => Ok(None),
                Err(e) => Err(e),
            },
            NodeOp::Slash { operator: _, violation_type } => match slash_node(
                &mut self.registry,
                &mut self.nodes[i],
                signer,
                violation_type,
                now,
            ) {
                Ok((_event, transfer)) => Ok(Some(transfer)),
                Err(e) => Err(e),
            },
            NodeOp::RecordEarnings { amount } => match record_earnings(
                &mut self.registry,
                &mut self.nodes[i],
                signer,
                amount,
                now,
            ) {
                Ok(_event) => Ok(None),
                Err(e) => Err(e),
            },
            NodeOp::ClaimEarnings => match claim_earnings(&mut self.nodes[i], signer, now) {
                Ok((_event, transfer)) => Ok(Some(transfer)),
                Err(e) => Err(e),
            },
            NodeOp::Deactivate => match deactivate_node(&mut self.nodes[i], signer, now) {
                Ok(_event) => Ok(None),
                Err(e) => Err(e),
            },
            NodeOp::Reactivate => match reactivate_node(&mut self.nodes[i], signer, now) {
                Ok(_event) => Ok(None),
                Err(e) => Err(e),
            },
        };
        proof {
            lemma_stake_sum_update(old_nodes, i as int, self.nodes@[i as int]);
            lemma_slash_amount_bounded(old_nodes[i as int].stake_amount, ViolationType::Downtime);
            lemma_slash_amount_bounded(old_nodes[i as int].stake_amount, ViolationType::Malicious);
            if r is Err {
                assert(self.nodes@ =~= old_nodes);
            }
        }
        r
    }
}

proof fn lemma_stake_sum_covers_member(nodes: Seq<NodeAccount>, i: int)
    requires
        0 <= i < nodes.len(),
    ensures
        stake_sum(nodes) >= nodes[i].stake_amount,
    decreases nodes.len(),
{
    if i < nodes.len() - 1 {
        lemma_stake_sum_covers_member(nodes.drop_last(), i);
    } else {
        lemma_stake_sum_nonneg(nodes.drop_last());
    }
}

proof fn lemma_stake_sum_nonneg(nodes: Seq<NodeAccount>)
    ensures
        stake_sum(nodes) >= 0,
    decreases nodes.len(),
{
    if nodes.len() > 0 {
        lemma_stake_sum_nonneg(nodes.drop_last());
    }
}

/// Withdrawing a node's stake is refused before its unbonding deadline and
/// succeeds from the deadline on, for the operator of any node in the
/// ledger that has started unbonding.
pub proof fn lemma_withdraw_at_deadline(ledger: &NodeLedger, i: int, now: i64)
    requires
        ledger.wf(),
        0 <= i < ledger.node_states().len(),
        ledger.node_states()[i].unbonding_until > 0,
    ensures
        now < ledger.node_states()[i].unbonding_until ==> op_error(
            ledger.registry_state(),
            ledger.node_states()[i],
            ledger.node_states()[i].operator,
            NodeOp::WithdrawUnstaked,
            now,
        ) == Some(ErrorCode::UnbondingPeriodActive),
        now >= ledger.node_states()[i].unbonding_until ==> op_error(
            ledger.registry_state(),
            ledger.node_states()[i],
            ledger.node_states()[i].operator,
            NodeOp::WithdrawUnstaked,
            now,
        ) is None,
{
    lemma_stake_sum_covers_member(ledger.node_states(), i);
}

/// The registry's total stake is the sum of the stakes of all nodes, in every
/// state that `NodeLedger::new` and `NodeLedger::apply` can reach.
pub proof fn lemma_total_stake_is_sum(ledger: &NodeLedger)
    requires
        ledger.wf(),
    ensures
        ledger.registry_state().total_stake == stake_sum(ledger.node_states()),
{
}

} // verus!
