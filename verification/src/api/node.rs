//! `GET /node`: what this node is.
//!
//! Identity, the limits and budgets every instance runs under, and the versions — everything
//! needed to decide whether a service can run here before deploying one.
use vstd::prelude::*;
use crate::node::Node;
use crate::text::copy_all;

verus! {

/// This node, as `GET /node` reports it.
#[derive(Debug, Clone, PartialEq, Eq)]
pub struct NodeInfo {
    /// The node's opaque, stable identity. Nothing may parse meaning out of it.
    pub id: String,
    /// A label for people, if the operator set one — absent, not null, when not.
    pub name: Option<String>,
    /// The daemon's version.
    pub version: String,
    /// The ABI version this daemon implements, `major.minor`.
    pub abi: String,
    /// The capability namespaces a block may use on this node.
    pub capabilities: Vec<String>,
    /// What every instance reports as its limits.
    pub limits: NodeLimits,
    /// What one guest entry and one expression may consume.
    pub budgets: NodeBudgets,
    /// Whether this node refuses a block it cannot verify a signature for.
    pub require_signed: bool,
}

/// See [`NodeInfo::limits`].
#[derive(Debug, Clone, Copy, PartialEq, Eq)]
pub struct NodeLimits {
    /// The largest payload one instance may emit or be delivered, in bytes.
    pub max_payload: u32,
    /// The largest number of signals in one batch.
    pub max_batch: u32,
}

/// See [`NodeInfo::budgets`].
#[derive(Debug, Clone, Copy, PartialEq, Eq)]
pub struct NodeBudgets {
    /// What one guest callback may consume, roughly one unit per WASM instruction.
    pub fuel: u64,
    /// The wall-clock backstop for a callback that is blocked rather than busy, in ms.
    pub deadline_ms: u64,
    /// What one property expression may consume.
    pub expr_max_fuel: u32,
}

/// What `GET /node` answers for `node`, built by `version`, implementing ABI `abi` and the
/// capability namespaces `capabilities`.
pub fn node_info(node: &Node, version: &str, abi: &str, capabilities: &Vec<String>) -> (info: NodeInfo)
    ensures
        info.id == node.id,
        info.name == node.name,
        info.version@ == version@,
        info.abi@ == abi@,
        info.capabilities@ == capabilities@,
        info.limits == (NodeLimits { max_payload: node.limits.max_payload, max_batch: node.limits.max_batch }),
        info.budgets == (NodeBudgets {
            fuel: node.budgets.fuel,
            deadline_ms: node.budgets.deadline_ms,
            expr_max_fuel: node.budgets.expr.max_fuel,
        }),
        info.require_signed == node.signing.require_signed,
{
    NodeInfo {
        id: node.id.clone(),
        name: match &node.name {
            Some(name) => Some(name.clone()),
            None => None,
        },
        version: String::from_str(version),
        abi: String::from_str(abi),
        capabilities: copy_all(capabilities),
        limits: NodeLimits { max_payload: node.limits.max_payload, max_batch: node.limits.max_batch },
        budgets: NodeBudgets {
            fuel: node.budgets.fuel,
            deadline_ms: node.budgets.deadline_ms,
            expr_max_fuel: node.budgets.expr.max_fuel,
        },
        require_signed: node.signing.require_signed,
    }
}

} // verus!
