//! Weighted random node selection: a request is opened with caller entropy
//! and fulfilled exactly once from an externally supplied random value.
use vstd::prelude::*;
use crate::ledger::Identity;

verus! {

/// A selection request, bound to the identity that opened it.
#[derive(Clone, Copy, Debug)]
pub struct VrfRequest {
    pub user: Identity,
    pub seed: [u8; 32],
    pub timestamp: i64,
    pub is_fulfilled: bool,
    pub selected_node: Option<Identity>,
}

#[derive(Clone, Copy, Debug, PartialEq, Eq, Structural)]
pub struct VrfRequested {
    pub user: Identity,
    pub timestamp: i64,
}

#[derive(Clone, Copy, Debug, PartialEq, Eq, Structural)]
pub struct NodeSelected {
    pub user: Identity,
    pub selected_node: Identity,
    pub timestamp: i64,
}

#[derive(Clone, Copy, Debug, PartialEq, Eq, Structural)]
pub enum ErrorCode {
    /// The node pool and the weights differ in length.
    MismatchedLengths,
    /// The node pool is empty.
    EmptyNodePool,
    /// The request has already been fulfilled.
    AlreadyFulfilled,
    /// The weights add up to zero.
    ZeroTotalWeight,
    /// The weights add up to more than a `u64` holds.
    WeightOverflow,
}

/// The unsigned integer whose little-endian encoding is the first eight bytes.
pub open spec fn le_u64_value(b: Seq<u8>) -> int
    recommends
        b.len() >= 8,
{
    b[0] + b[1] * 0x100 + b[2] * 0x1_0000 + b[3] * 0x100_0000 + b[4] * 0x1_0000_0000
        + b[5] * 0x100_0000_0000 + b[6] * 0x1_0000_0000_0000 + b[7] * 0x100_0000_0000_0000
}

/// Sum of the weights.
pub open spec fn weight_sum(w: Seq<u8>) -> int
    decreases w.len(),
{
    if w.len() == 0 {
        0
    } else {
        weight_sum(w.drop_last()) + w.last()
    }
}

/// Sum of the first `n` weights.
pub open spec fn prefix_weight(w: Seq<u8>, n: int) -> int {
    weight_sum(w.subrange(0, n))
}

/// Index chosen by walking the cumulative weights from position `i`: the
/// first position whose running sum exceeds `target`, else the last one.
pub open spec fn select_from(w: Seq<u8>, target: int, i: int) -> int
    decreases w.len() - i,
{
    if i < 0 || i >= w.len() {
        w.len() - 1
    } else if target < prefix_weight(w, i + 1) {
        i
    } else {
        select_from(w, target, i + 1)
    }
}

/// Index selected for `target` from the weights.
pub open spec fn selected_index(w: Seq<u8>, target: int) -> int {
    select_from(w, target, 0)
}

/// The error, if any, that fulfilling `req` with these inputs must fail with.
pub open spec fn fulfill_error(req: VrfRequest, n_nodes: int, w: Seq<u8>) -> Option<ErrorCode> {
    if req.is_fulfilled {
        Some(ErrorCode::AlreadyFulfilled)
    } else if n_nodes != w.len() {
        Some(ErrorCode::MismatchedLengths)
    } else if n_nodes == 0 {
        Some(ErrorCode::EmptyNodePool)
    } else if weight_sum(w) > u64::MAX {
        Some(ErrorCode::WeightOverflow)
    } else if weight_sum(w) == 0 {
        Some(ErrorCode::ZeroTotalWeight)
    } else {
        None
    }
}

proof fn lemma_weight_sum_nonneg(w: Seq<u8>)
    ensures
        weight_sum(w) >= 0,
    decreases w.len(),
{
    if w.len() > 0 {
        lemma_weight_sum_nonneg(w.drop_last());
    }
}

proof fn lemma_prefix_step(w: Seq<u8>, i: int)
    requires
        0 <= i < w.len(),
    ensures
        prefix_weight(w, i + 1) == prefix_weight(w, i) + w[i],
{
    assert(w.subrange(0, i + 1).drop_last() =~= w.subrange(0, i));
}

proof fn lemma_prefix_full(w: Seq<u8>)
    ensures
        prefix_weight(w, w.len() as int) == weight_sum(w),
{
    assert(w.subrange(0, w.len() as int) =~= w);
}

/// Running sums never decrease along the weights.
pub proof fn lemma_prefix_monotone(w: Seq<u8>, i: int, j: int)
    requires
        0 <= i <= j <= w.len(),
    ensures
        0 <= prefix_weight(w, i) <= prefix_weight(w, j),
    decreases j - i,
{
    if i == j {
        lemma_weight_sum_nonneg(w.subrange(0, i));
    } else {
        lemma_prefix_monotone(w, i, j - 1);
        lemma_prefix_step(w, j - 1);
    }
}

/// Where the target lies below the total weight, the selected index is the
/// bucket that holds it: the running sum before it is at most the target and
/// the running sum through it exceeds the target. Each index is therefore
/// selected for exactly `w[i]` of the `weight_sum(w)` possible targets.
pub proof fn lemma_selected_bucket(w: Seq<u8>, target: int)
    requires
        0 <= target < weight_sum(w),
    ensures
        0 <= selected_index(w, target) < w.len(),
        prefix_weight(w, selected_index(w, target)) <= target,
        target < prefix_weight(w, selected_index(w, target) + 1),
{
    lemma_prefix_full(w);
    assert(w.subrange(0, 0).len() == 0);
    lemma_select_from_bucket(w, target, 0);
}

proof fn lemma_select_from_bucket(w: Seq<u8>, target: int, i: int)
    requires
        0 <= i <= w.len(),
        prefix_weight(w, i) <= target < prefix_weight(w, w.len() as int),
    ensures
        i <= select_from(w, target, i) < w.len(),
        prefix_weight(w, select_from(w, target, i)) <= target,
        target < prefix_weight(w, select_from(w, target, i) + 1),
    decreases w.len() - i,
{
    if i == w.len() {
    } else if target < prefix_weight(w, i + 1) {
    } else {
        lemma_select_from_bucket(w, target, i + 1);
    }
}

/// Reads the first eight bytes of `bytes` as a little-endian unsigned integer.
pub fn random_value_from_bytes(bytes: &[u8; 32]) -> (r: u64)
    ensures
        r == le_u64_value(bytes@),
{
    (bytes[0] as u64) + (bytes[1] as u64) * 0x100 + (bytes[2] as u64) * 0x1_0000 + (bytes[3] as u64)
        * 0x100_0000 + (bytes[4] as u64) * 0x1_0000_0000 + (bytes[5] as u64) * 0x100_0000_0000
        + (bytes[6] as u64) * 0x1_0000_0000_0000 + (bytes[7] as u64) * 0x100_0000_0000_0000
}

/// Opens a selection request for `user`. The seed is kept for off-chain
/// reproducibility and takes no part in the weighting.
pub fn request_random_node(user: Identity, user_seed: [u8; 32], now: i64) -> (r: (
    VrfRequest,
    VrfRequested,
))
    ensures
        r.0.user == user,
        r.0.seed == user_seed,
        r.0.timestamp == now,
        !r.0.is_fulfilled,
        r.0.selected_node is None,
        r.1 == (VrfRequested { user, timestamp: now }),
{
    let request = VrfRequest {
        user,
        seed: user_seed,
        timestamp: now,
        is_fulfilled: false,
        selected_node: None,
    };
    (request, VrfRequested { user, timestamp: now })
}

/// Roulette-wheel selection: `target = random_value mod Σweights`, and the
/// first node whose running weight exceeds the target is chosen.
pub fn select_weighted_node(random_value: u64, nodes: &Vec<Identity>, weights: &Vec<u8>) -> (r:
    Result<Identity, ErrorCode>)
    requires
        nodes@.len() == weights@.len(),
        nodes@.len() > 0,
    ensures
        weight_sum(weights@) > u64::MAX ==> r == Err::<Identity, ErrorCode>(ErrorCode::WeightOverflow),
        weight_sum(weights@) == 0 ==> r == Err::<Identity, ErrorCode>(ErrorCode::ZeroTotalWeight),
        0 < weight_sum(weights@) <= u64::MAX ==> r == Ok::<Identity, ErrorCode>(
            nodes@[selected_index(weights@, random_value as int % weight_sum(weights@))],
        ),
{
    let w = Ghost(weights@);
    let n = weights.len();
    let mut total: u64 = 0;
    let mut i: usize = 0;
    while i < n
        invariant
            w@ == weights@,
            n == w@.len(),
            i <= n,
            total == prefix_weight(w@, i as int),
        decreases n - i,
    {
        proof {
            lemma_prefix_step(w@, i as int);
        }
        if total > u64::MAX - weights[i] as u64 {
            proof {
                lemma_prefix_monotone(w@, i as int + 1, n as int);
                lemma_prefix_full(w@);
            }
            return Err(ErrorCode::WeightOverflow);
        }
        total = total + weights[i] as u64;
        i = i + 1;
    }
    proof {
        lemma_prefix_full(w@);
    }
    if total == 0 {
        return Err(ErrorCode::ZeroTotalWeight);
    }
    let target = random_value % total;
    let mut cumulative: u64 = 0;
    let mut k: usize = 0;
    proof {
        assert(w@.subrange(0, 0).len() == 0);
    }
    while k < n
        invariant
            w@ == weights@,
            n == w@.len(),
            nodes@.len() == n,
            n > 0,
            k <= n,
            total == weight_sum(w@),
            target < total,
            target == random_value % total,
            cumulative == prefix_weight(w@, k as int),
            select_from(w@, target as int, 0) == select_from(w@, target as int, k as int),
        decreases n - k,
    {
        proof {
            lemma_prefix_step(w@, k as int);
            lemma_prefix_monotone(w@, k as int + 1, n as int);
            lemma_prefix_full(w@);
        }
        cumulative = cumulative + weights[k] as u64;
        if target < cumulative {
            assert(select_from(w@, target as int, k as int) == k as int);
            return Ok(nodes[k]);
        }
        k = k + 1;
    }
    Ok(nodes[n - 1])
}

/// Fulfils a request once: the first eight bytes of `vrf_result` give the
/// random value, from which a node is selected by weight. On failure the
/// request is left as it was. Fulfilment is terminal: a fulfilled request
/// refuses every later attempt, whatever its inputs, and keeps its node.
pub fn fulfill_random_selection(
    request: &mut VrfRequest,
    vrf_result: [u8; 32],
    node_pool: &Vec<Identity>,
    reputation_weights: &Vec<u8>,
    now: i64,
) -> (r: Result<NodeSelected, ErrorCode>)
    ensures
        old(request).is_fulfilled ==> r == Err::<NodeSelected, ErrorCode>(
            ErrorCode::AlreadyFulfilled,
        ) && *final(request) == *old(request),
        match fulfill_error(*old(request), node_pool@.len() as int, reputation_weights@) {
            Some(e) => r == Err::<NodeSelected, ErrorCode>(e) && *final(request) == *old(request),
            None => {
                let chosen = node_pool@[selected_index(
                    reputation_weights@,
                    le_u64_value(vrf_result@) % weight_sum(reputation_weights@),
                )];
                &&& r == Ok::<NodeSelected, ErrorCode>(
                    NodeSelected { user: old(request).user, selected_node: chosen, timestamp: now },
                )
                &&& final(request).is_fulfilled
                &&& final(request).selected_node == Some(chosen)
                &&& final(request).user == old(request).user
                &&& final(request).seed == old(request).seed
                &&& final(request).timestamp == old(request).timestamp
            },
        },
{
    if request.is_fulfilled {
        return Err(ErrorCode::AlreadyFulfilled);
    }
    if node_pool.len() != reputation_weights.len() {
        return Err(ErrorCode::MismatchedLengths);
    }
    if node_pool.len() == 0 {
        return Err(ErrorCode::EmptyNodePool);
    }
    let random_value = random_value_from_bytes(&vrf_result);
    proof {
        lemma_weight_sum_nonneg(reputation_weights@);
    }
    let selected_node = match select_weighted_node(random_value, node_pool, reputation_weights) {
        Ok(node) => node,
        Err(e) => {
            return Err(e);
        },
    };
    request.selected_node = Some(selected_node);
    request.is_fulfilled = true;
    Ok(NodeSelected { user: request.user, selected_node, timestamp: now })
}

/// The node chosen for the request, if it has been fulfilled.
pub fn get_selected_node(request: &VrfRequest) -> (r: Option<Identity>)
    ensures
        r == request.selected_node,
{
    request.selected_node
}

} // verus!
