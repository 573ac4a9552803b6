//! The lightning node, as far as the peg needs it: what it holds on chain,
//! the channels it reports, and a payment sent through it.
//!
//! Nothing in this file is proved. Each function calls the node and hands
//! back what it said; the callers are proved for whatever that is.

use vstd::prelude::*;
use ldk_node::bitcoin::secp256k1::PublicKey;
use ldk_node::Node;
use ldk_node::NodeError;
use crate::channel::ChannelSnapshot;

verus! {

/// `ldk_node::Node`, a running or stopped lightning node. Nothing is known
/// of what it holds.
#[verifier::external_type_specification]
#[verifier::external_body]
pub struct ExNode(Node);

/// `secp256k1::PublicKey`, the identity of a node. It is carried to the
/// payment and to the audit trail, and never looked into.
#[verifier::external_type_specification]
#[verifier::external_body]
pub struct ExPublicKey(PublicKey);

/// `Clone::clone` of `secp256k1::PublicKey`, which the crate derives for a
/// type that is `Copy`: the clone is the key itself.
pub assume_specification[ <PublicKey as Clone>::clone ](key: &PublicKey) -> (copy: PublicKey)
    ensures
        copy == *key,
;

/// `ldk_node::NodeError`, the reason the node gives for refusing a request.
#[verifier::external_type_specification]
#[verifier::external_body]
pub struct ExNodeError(NodeError);

/// Calls `Node::list_balances` and returns its `total_onchain_balance_sats`.
/// The balance is whatever the node's wallet holds at the time of the call,
/// so nothing is claimed of it.
#[verifier::external_body]
pub(crate) fn onchain_balance_sats(node: &Node) -> (sats: u64) {
    node.list_balances().total_onchain_balance_sats
}

/// Calls `Node::list_channels` and returns, in the node's order, each
/// channel's identifier, capacity, outbound capacity and reserve. The list is
/// whatever the node knows at the time of the call, so nothing is claimed of
/// it.
#[verifier::external_body]
pub(crate) fn list_channels(node: &Node) -> (channels: Vec<ChannelSnapshot>) {
    node.list_channels()
        .iter()
        .map(|c| {
            ChannelSnapshot::new(
                c.channel_id.0,
                c.channel_value_sats,
                c.outbound_capacity_msat,
                c.unspendable_punishment_reserve,
            )
        })
        .collect()
}

/// Calls `SpontaneousPayment::send` on the node's payment handler, with the
/// node's own sending parameters, and returns the 32 bytes of the payment
/// identifier or the node's error. Whether the node accepts the payment
/// depends on its state and on the network, so nothing is claimed of the
/// outcome.
#[verifier::external_body]
pub(crate) fn send_spontaneous(node: &Node, amount_msat: u64, counterparty: PublicKey) -> (outcome:
    Result<[u8; 32], NodeError>) {
    node.spontaneous_payment().send(amount_msat, counterparty, None).map(|id| id.0)
}

/// Calls `to_string` on the error, which writes the message of its
/// `Display` impl. Nothing is claimed of the text.
#[verifier::external_body]
pub(crate) fn error_text(error: &NodeError) -> (text: String) {
    error.to_string()
}

} // verus!
