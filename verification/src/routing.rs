//! What a routing rule does with matched traffic.

use vstd::prelude::*;

verus! {

/// The action a routing rule applies to traffic it matches.
#[derive(Debug, Clone, Copy, PartialEq, Eq, Structural)]
pub enum RuleAction {
    Proxy,
    Direct,
    Block,
}

} // verus!
