//! Reconciling a freshly fetched node list with the nodes already held:
//! user enablement is kept for nodes that stayed, new nodes arrive enabled,
//! and the counts of the change are reported.

use vstd::prelude::*;

verus! {

use crate::proxy::{spec_node_address, spec_node_port, spec_node_protocol, ProxyNode};
use crate::subscription::SubscriptionNode;

/// How an update changed the node list.
#[derive(Debug, Clone, Copy, PartialEq, Eq, Structural)]
pub struct UpdateResult {
    pub added: usize,
    pub removed: usize,
    pub unchanged: usize,
}

/// Whether two nodes name the same endpoint with the same protocol.
pub open spec fn spec_same_endpoint(a: ProxyNode, b: ProxyNode) -> bool {
    spec_node_address(a) == spec_node_address(b) && spec_node_port(a) == spec_node_port(b)
        && spec_node_protocol(a) == spec_node_protocol(b)
}

/// Whether `n` matches some held node.
pub open spec fn spec_matched_in(old: Seq<SubscriptionNode>, n: ProxyNode) -> bool {
    exists|i: int| 0 <= i < old.len() && spec_same_endpoint(#[trigger] old[i].node, n)
}

/// The enablement a reconciled node keeps: the first held match's, or
/// enabled when the node is new.
pub open spec fn spec_enabled_for(old: Seq<SubscriptionNode>, n: ProxyNode) -> bool
    decreases old.len(),
{
    if old.len() == 0 {
        true
    } else if spec_same_endpoint(old[0].node, n) {
        old[0].enabled
    } else {
        spec_enabled_for(old.drop_first(), n)
    }
}

/// How many of the fetched nodes match some held node.
pub open spec fn spec_count_matched(old: Seq<SubscriptionNode>, new: Seq<ProxyNode>) -> nat
    decreases new.len(),
{
    if new.len() == 0 {
        0
    } else {
        spec_count_matched(old, new.drop_last()) + if spec_matched_in(old, new.last()) {
            1nat
        } else {
            0nat
        }
    }
}

fn matched_in(old: &[SubscriptionNode], n: &ProxyNode) -> (r: bool)
    ensures
        r == spec_matched_in(old@, *n),
{
    let len = old.len();
    let mut j: usize = 0;
    while j < len
        invariant
            0 <= j <= len,
            len == old@.len(),
            forall|k: int| 0 <= k < j ==> !spec_same_endpoint(#[trigger] old@[k].node, *n),
        decreases len - j,
    {
        if old[j].node.same_endpoint(n) {
            return true;
        }
        j += 1;
    }
    false
}

fn enabled_for(old: &[SubscriptionNode], n: &ProxyNode) -> (r: bool)
    ensures
        r == spec_enabled_for(old@, *n),
{
    let len = old.len();
    let mut j: usize = 0;
    proof {
        assert(old@.skip(0) =~= old@);
    }
    while j < len
        invariant
            0 <= j <= len,
            len == old@.len(),
            spec_enabled_for(old@, *n) == spec_enabled_for(old@.skip(j as int), *n),
        decreases len - j,
    {
        proof {
            let rest = old@.skip(j as int);
            assert(rest[0] == old@[j as int]);
            assert(rest.drop_first() =~= old@.skip(j + 1));
        }
        if old[j].node.same_endpoint(n) {
            return old[j].enabled;
        }
        j += 1;
    }
    proof {
        assert(old@.skip(len as int).len() == 0);
    }
    true
}

/// Builds the reconciled list: one entry per fetched node, in fetch order,
/// with enablement carried over from the first held node naming the same
/// endpoint, enabled otherwise, and the latency cleared.
pub fn reconcile_nodes(old_nodes: &[SubscriptionNode], new_parsed: Vec<ProxyNode>) -> (r: Vec<
    SubscriptionNode,
>)
    ensures
        r@.len() == new_parsed@.len(),
        forall|i: int|
            0 <= i < r@.len() ==> (#[trigger] r@[i]).node == new_parsed@[i] && r@[i].enabled
                == spec_enabled_for(old_nodes@, new_parsed@[i]) && r@[i].last_latency_ms is None,
{
    let ghost orig = new_parsed@;
    let mut rest = new_parsed;
    let mut out: Vec<SubscriptionNode> = Vec::new();
    while rest.len() > 0
        invariant
            out@.len() + rest@.len() == orig.len(),
            rest@ =~= orig.skip(out@.len() as int),
            forall|i: int|
                0 <= i < out@.len() ==> (#[trigger] out@[i]).node == orig[i] && out@[i].enabled
                    == spec_enabled_for(old_nodes@, orig[i]) && out@[i].last_latency_ms is None,
        decreases rest@.len(),
    {
        let node = rest.remove(0);
        proof {
            assert(node == orig[out@.len() as int]);
        }
        let enabled = enabled_for(old_nodes, &node);
        out.push(SubscriptionNode { node, enabled, last_latency_ms: None });
        proof {
            assert(rest@ =~= orig.skip(out@.len() as int));
        }
    }
    out
}

/// Reconciles like `reconcile_nodes` and reports the counts: how many
/// fetched nodes stayed, how many are new, and how many held nodes left.
pub fn reconcile_with_counts(old_nodes: &[SubscriptionNode], new_parsed: Vec<ProxyNode>) -> (r: (
    Vec<SubscriptionNode>,
    UpdateResult,
))
    ensures
        r.0@.len() == new_parsed@.len(),
        forall|i: int|
            0 <= i < r.0@.len() ==> (#[trigger] r.0@[i]).node == new_parsed@[i] && r.0@[i].enabled
                == spec_enabled_for(old_nodes@, new_parsed@[i]) && r.0@[i].last_latency_ms is None,
        r.1.unchanged == spec_count_matched(old_nodes@, new_parsed@),
        r.1.added + r.1.unchanged == new_parsed@.len(),
        r.1.removed == if old_nodes@.len() >= spec_count_matched(old_nodes@, new_parsed@) {
            old_nodes@.len() - spec_count_matched(old_nodes@, new_parsed@)
        } else {
            0
        },
{
    let ghost orig = new_parsed@;
    let mut added: usize = 0;
    let mut unchanged: usize = 0;
    let len = new_parsed.len();
    let mut i: usize = 0;
    while i < len
        invariant
            0 <= i <= len,
            len == orig.len(),
            orig == new_parsed@,
            added + unchanged == i,
            unchanged == spec_count_matched(old_nodes@, orig.subrange(0, i as int)),
        decreases len - i,
    {
        proof {
            let pre = orig.subrange(0, i + 1);
            assert(pre.drop_last() =~= orig.subrange(0, i as int));
            assert(pre.last() == orig[i as int]);
        }
        if matched_in(old_nodes, &new_parsed[i]) {
            unchanged += 1;
        } else {
            added += 1;
        }
        i += 1;
    }
    proof {
        assert(orig.subrange(0, len as int) =~= orig);
    }
    let old_len = old_nodes.len();
    let removed = if old_len >= unchanged {
        old_len - unchanged
    } else {
        0
    };
    let nodes = reconcile_nodes(old_nodes, new_parsed);
    (nodes, UpdateResult { added, removed, unchanged })
}

} // verus!
