//! The audit trail: one event for every decision and every outcome.
//!
//! The library only says which events there are, in which order, and what
//! each one carries. Writing them down is the caller's business.

use vstd::prelude::*;
use ldk_node::bitcoin::secp256k1::PublicKey;
use crate::channel::ChannelId;
use crate::money::{Bitcoin, Price, USD};
use crate::policy::{Action, Percent};

verus! {

/// One entry of the audit trail.
#[derive(Clone, Debug, PartialEq)]
pub enum AuditEvent {
    /// The balances were read. It carries what the record holds afterwards,
    /// whether or not a channel was found.
    BalanceUpdate {
        channel_id: ChannelId,
        receiver_btc: Bitcoin,
        provider_btc: Bitcoin,
        receiver_usd: USD,
        provider_usd: USD,
        btc_price: Price,
    },
    /// No price was at hand, so nothing was evaluated.
    StabilitySkip,
    /// The balances could not be read from a channel, so nothing was
    /// decided.
    BalanceUpdateFailed { channel_id: ChannelId },
    /// The peg was evaluated and an action chosen.
    StabilityCheck {
        expected_usd: USD,
        current_receiver_usd: USD,
        percent_from_par: Percent,
        btc_price: Price,
        action: Action,
        is_receiver: bool,
        risk_level: i32,
    },
    /// The node took the payment.
    StabilityPaymentSent { amount_msats: u64, payment_id: [u8; 32], counterparty: PublicKey },
    /// The node refused the payment.
    StabilityPaymentFailed { amount_msats: u64, error: String, counterparty: PublicKey },
}

impl AuditEvent {
    /// The name under which the event is recorded.
    pub open spec fn tag(self) -> Seq<char> {
        match self {
            AuditEvent::BalanceUpdate { .. } => "BALANCE_UPDATE"@,
            AuditEvent::StabilitySkip => "STABILITY_SKIP"@,
            AuditEvent::BalanceUpdateFailed { .. } => "BALANCE_UPDATE_FAILED"@,
            AuditEvent::StabilityCheck { .. } => "STABILITY_CHECK"@,
            AuditEvent::StabilityPaymentSent { .. } => "STABILITY_PAYMENT_SENT"@,
            AuditEvent::StabilityPaymentFailed { .. } => "STABILITY_PAYMENT_FAILED"@,
        }
    }

    /// The name under which the event is recorded.
    pub fn name(&self) -> (name: &'static str)
        ensures
            name@ == self.tag(),
    {
        match self {
            AuditEvent::BalanceUpdate { .. } => "BALANCE_UPDATE",
            AuditEvent::StabilitySkip => "STABILITY_SKIP",
            AuditEvent::BalanceUpdateFailed { .. } => "BALANCE_UPDATE_FAILED",
            AuditEvent::StabilityCheck { .. } => "STABILITY_CHECK",
            AuditEvent::StabilityPaymentSent { .. } => "STABILITY_PAYMENT_SENT",
            AuditEvent::StabilityPaymentFailed { .. } => "STABILITY_PAYMENT_FAILED",
        }
    }
}

} // verus!
