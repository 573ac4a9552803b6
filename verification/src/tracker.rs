//! The record of one pegged channel, and how it is brought up to date from
//! what the node reports.

use vstd::prelude::*;
use ldk_node::bitcoin::secp256k1::PublicKey;
use crate::audit::AuditEvent;
use crate::channel::{lemma_same_bytes_same_id, select_channel, selected, ChannelId, ChannelSnapshot};
use crate::money::{usd_micros_of, Bitcoin, Price, USD};

verus! {

/// Why a record cannot be set up.
#[derive(Clone, Copy, Debug, PartialEq, Eq, Structural)]
pub enum ConfigError {
    /// The peg is zero dollars, of which no balance is any share.
    ZeroPeg,
    /// The peg is beyond every amount that a balance can be worth.
    PegOutOfRange,
}

/// The record of one pegged channel: what the peg is, who plays which part,
/// and the balances and price as they were last seen.
#[derive(Clone, Debug, PartialEq)]
pub struct StableChannel {
    /// The channel that carries the peg; unset until a channel is first seen.
    pub channel_id: ChannelId,
    /// Whether this node is the one whose balance is pegged.
    pub is_receiver: bool,
    /// The node at the other end, to which corrections are paid.
    pub counterparty: PublicKey,
    /// The peg: what the receiver's balance should be worth.
    pub expected_usd: USD,
    /// The price last used; unknown until one is seen.
    pub latest_price: Price,
    /// What this node holds on chain.
    pub onchain_btc: Bitcoin,
    /// What that is worth at the latest price.
    pub onchain_usd: USD,
    /// The receiver's balance in the channel.
    pub receiver_btc: Bitcoin,
    /// What that is worth at the latest price.
    pub receiver_usd: USD,
    /// The provider's balance in the channel.
    pub provider_btc: Bitcoin,
    /// What that is worth at the latest price.
    pub provider_usd: USD,
    /// Above the risk limit no correction is paid.
    pub risk_level: i32,
    /// Whether a correction has been handed to the node.
    pub payment_made: bool,
}

/// What `btc` is worth at `price`.
pub open spec fn worth(btc: Bitcoin, price: Price) -> USD {
    USD { micros: usd_micros_of(btc@, price@) as i128 }
}

/// The record with its on-chain holdings set to `onchain_sats`, valued at the
/// record's price.
pub open spec fn with_onchain(sc: StableChannel, onchain_sats: u64) -> StableChannel {
    let onchain = Bitcoin { sats: onchain_sats };
    StableChannel { onchain_btc: onchain, onchain_usd: worth(onchain, sc.latest_price), ..sc }
}

/// The record tied to the channel `ch`, with the channel's capacity split
/// between receiver and provider: this node's balance goes to the part that
/// this node plays, the rest to the other. Both are valued at the record's
/// price.
pub open spec fn with_channel(sc: StableChannel, ch: ChannelSnapshot) -> StableChannel
    recommends
        ch.consistent(),
{
    let ours = Bitcoin { sats: ch.our_sats() as u64 };
    let theirs = Bitcoin { sats: ch.their_sats() as u64 };
    let receiver = if sc.is_receiver {
        ours
    } else {
        theirs
    };
    let provider = if sc.is_receiver {
        theirs
    } else {
        ours
    };
    StableChannel {
        channel_id: ch.channel_id,
        receiver_btc: receiver,
        provider_btc: provider,
        receiver_usd: worth(receiver, sc.latest_price),
        provider_usd: worth(provider, sc.latest_price),
        ..sc
    }
}

/// The channel to read the balances from: the one that `id` stands for, if
/// it is reported and its balance fits its capacity.
pub open spec fn usable(id: ChannelId, channels: Seq<ChannelSnapshot>) -> Option<ChannelSnapshot> {
    match selected(id, channels) {
        Some(i) => if channels[i].consistent() {
            Some(channels[i])
        } else {
            None
        },
        None => None,
    }
}

/// The record brought up to date. The on-chain holdings are always set.
/// The channel balances are set from the usable channel; without one they
/// stay as they were.
pub open spec fn reconciled(sc: StableChannel, onchain_sats: u64, channels: Seq<ChannelSnapshot>) -> StableChannel {
    match usable(sc.channel_id, channels) {
        Some(ch) => with_channel(with_onchain(sc, onchain_sats), ch),
        None => with_onchain(sc, onchain_sats),
    }
}

/// The event that reports the balances which the record holds.
pub open spec fn balance_update(sc: StableChannel) -> AuditEvent {
    AuditEvent::BalanceUpdate {
        channel_id: sc.channel_id,
        receiver_btc: sc.receiver_btc,
        provider_btc: sc.provider_btc,
        receiver_usd: sc.receiver_usd,
        provider_usd: sc.provider_usd,
        btc_price: sc.latest_price,
    }
}

impl StableChannel {
    /// Whether the record can be evaluated: the peg is not zero, and every
    /// dollar amount is one that a balance can be worth.
    pub open spec fn wf(&self) -> bool {
        &&& self.expected_usd@ != 0
        &&& self.expected_usd.in_range()
        &&& self.onchain_usd.in_range()
        &&& self.receiver_usd.in_range()
        &&& self.provider_usd.in_range()
    }

    /// Whether the record can be evaluated.
    pub fn is_well_formed(&self) -> (ok: bool)
        ensures
            ok == self.wf(),
    {
        self.expected_usd.micros != 0 && self.expected_usd.is_in_range()
            && self.onchain_usd.is_in_range() && self.receiver_usd.is_in_range()
            && self.provider_usd.is_in_range()
    }

    /// Sets up the record of a channel whose balances and price have not
    /// been seen yet. A peg of zero dollars is refused, and so is one beyond
    /// every amount that a balance can be worth.
    pub fn new(
        channel_id: ChannelId,
        is_receiver: bool,
        counterparty: PublicKey,
        expected_usd: USD,
        risk_level: i32,
    ) -> (made: Result<StableChannel, ConfigError>)
        ensures
            expected_usd@ == 0 <==> made == Err::<StableChannel, ConfigError>(ConfigError::ZeroPeg),
            !expected_usd.in_range() <==> made == Err::<StableChannel, ConfigError>(
                ConfigError::PegOutOfRange,
            ),
            made matches Ok(sc) ==> sc.wf() && sc == (StableChannel {
                    channel_id,
                    is_receiver,
                    counterparty,
                    expected_usd,
                    latest_price: Price { micros: 0 },
                    onchain_btc: Bitcoin { sats: 0 },
                    onchain_usd: USD { micros: 0 },
                    receiver_btc: Bitcoin { sats: 0 },
                    receiver_usd: USD { micros: 0 },
                    provider_btc: Bitcoin { sats: 0 },
                    provider_usd: USD { micros: 0 },
                    risk_level,
                    payment_made: false,
                }),
    {
        if expected_usd.micros == 0 {
            return Err(ConfigError::ZeroPeg);
        }
        if !expected_usd.is_in_range() {
            return Err(ConfigError::PegOutOfRange);
        }
        Ok(
            StableChannel {
                channel_id,
                is_receiver,
                counterparty,
                expected_usd,
                latest_price: Price { micros: 0 },
                onchain_btc: Bitcoin { sats: 0 },
                onchain_usd: USD { micros: 0 },
                receiver_btc: Bitcoin { sats: 0 },
                receiver_usd: USD { micros: 0 },
                provider_btc: Bitcoin { sats: 0 },
                provider_usd: USD { micros: 0 },
                risk_level,
                payment_made: false,
            },
        )
    }

    /// The event that reports the balances which the record holds.
    pub fn balance_update_event(&self) -> (event: AuditEvent)
        ensures
            event == balance_update(*self),
    {
        AuditEvent::BalanceUpdate {
            channel_id: self.channel_id,
            receiver_btc: self.receiver_btc,
            provider_btc: self.provider_btc,
            receiver_usd: self.receiver_usd,
            provider_usd: self.provider_usd,
            btc_price: self.latest_price,
        }
    }
}

/// Brings the record up to date from what the node reported: `onchain_sats`
/// on chain and `channels`, in the node's order.
///
/// The on-chain holdings are always set. The channel is the first one
/// reported while the record names none, and the record then takes its
/// identifier; else it is the first one with the record's identifier. Its
/// capacity is split into this node's balance, which goes to the part that
/// this node plays, and the rest. Where no such channel is reported, or its
/// balance exceeds its capacity, the channel balances stay as they were and
/// the answer is `false`. Either way the balances that the record then holds
/// are reported to the audit trail.
pub fn reconcile(
    sc: &mut StableChannel,
    onchain_sats: u64,
    channels: &Vec<ChannelSnapshot>,
    audit: &mut Vec<AuditEvent>,
) -> (found: bool)
    ensures
        *final(sc) == reconciled(*old(sc), onchain_sats, channels@),
        found == (usable(old(sc).channel_id, channels@) is Some),
        final(audit)@ == old(audit)@.push(balance_update(*final(sc))),
        old(sc).wf() ==> final(sc).wf(),
        found ==> final(sc).receiver_btc@ + final(sc).provider_btc@ == usable(
            old(sc).channel_id,
            channels@,
        )->0.channel_value_sats,
{
    sc.onchain_btc = Bitcoin::from_sats(onchain_sats);
    sc.onchain_usd = USD::from_bitcoin(sc.onchain_btc, sc.latest_price);
    let mut found = false;
    if let Some(i) = select_channel(&sc.channel_id, channels) {
        let channel = &channels[i];
        if let Some((ours, theirs)) = channel.split() {
            proof {
                if !sc.channel_id.is_unset_spec() {
                    lemma_same_bytes_same_id(sc.channel_id, channel.channel_id);
                }
            }
            if sc.channel_id.is_unset() {
                sc.channel_id = channel.channel_id;
            }
            if sc.is_receiver {
                sc.receiver_btc = ours;
                sc.provider_btc = theirs;
            } else {
                sc.provider_btc = ours;
                sc.receiver_btc = theirs;
            }
            sc.receiver_usd = USD::from_bitcoin(sc.receiver_btc, sc.latest_price);
            sc.provider_usd = USD::from_bitcoin(sc.provider_btc, sc.latest_price);
            found = true;
        }
    }
    let event = sc.balance_update_event();
    audit.push(event);
    found
}

/// The balance of the node goes to the part that the node plays: as receiver
/// it holds the receiver's balance and the rest of the capacity is the
/// provider's; as provider, the other way round. The two always add up to
/// the capacity.
pub proof fn lemma_directional_assignment(sc: StableChannel, ch: ChannelSnapshot)
    requires
        ch.consistent(),
    ensures
        sc.is_receiver ==> with_channel(sc, ch).receiver_btc@ == ch.our_sats() && with_channel(
            sc,
            ch,
        ).provider_btc@ == ch.channel_value_sats - ch.our_sats(),
        !sc.is_receiver ==> with_channel(sc, ch).provider_btc@ == ch.our_sats() && with_channel(
            sc,
            ch,
        ).receiver_btc@ == ch.channel_value_sats - ch.our_sats(),
        with_channel(sc, ch).receiver_btc@ + with_channel(sc, ch).provider_btc@
            == ch.channel_value_sats,
{
}

/// Without a usable channel, the channel balances and the channel's
/// identifier stay as they were.
pub proof fn lemma_stale_without_channel(
    sc: StableChannel,
    onchain_sats: u64,
    channels: Seq<ChannelSnapshot>,
)
    requires
        usable(sc.channel_id, channels) is None,
    ensures
        reconciled(sc, onchain_sats, channels).channel_id == sc.channel_id,
        reconciled(sc, onchain_sats, channels).receiver_btc == sc.receiver_btc,
        reconciled(sc, onchain_sats, channels).receiver_usd == sc.receiver_usd,
        reconciled(sc, onchain_sats, channels).provider_btc == sc.provider_btc,
        reconciled(sc, onchain_sats, channels).provider_usd == sc.provider_usd,
{
}

} // verus!
