//! Where a subscription's node list comes from, and one entry of it.

use vstd::prelude::*;

verus! {

use crate::proxy::ProxyNode;

/// Where the node list is fetched from.
#[derive(Debug, Clone, PartialEq)]
pub enum SubscriptionSource {
    Url { url: String },
    File { path: String },
}

/// One node of a subscription, with its user-set enablement and the last
/// measured latency.
#[derive(Debug, Clone, PartialEq)]
pub struct SubscriptionNode {
    pub node: ProxyNode,
    pub enabled: bool,
    pub last_latency_ms: Option<u64>,
}

} // verus!
