//! Keeping the peg: read the price and the balances, decide, and pay the
//! difference where this node is the one to pay.
//!
//! What the node and the price feed answer cannot be known beforehand. So
//! every step that follows an answer is a function of its own, which takes
//! the answer as an argument and says exactly what it makes of it:
//! `reconcile`, `evaluate` and `record_payment`. The functions that ask,
//! `update_balances`, `check_stability` and `send_correction`, promise that
//! for some answer the outcome is the one those steps give.

use vstd::prelude::*;
use vstd::math::abs;
use ldk_node::Node;
use crate::audit::AuditEvent;
use crate::channel::ChannelSnapshot;
use crate::money::{msats_of, Price, USD};
use crate::node::{error_text, list_channels, onchain_balance_sats, send_spontaneous};
use crate::policy::{
    action_for, lemma_deadband_is_exact, percent_from_par, percent_millis, select_action, Action,
    Percent, RISK_LIMIT,
};
use crate::tracker::{balance_update, reconcile, reconciled, usable, StableChannel};

verus! {

/// What one look at the peg finds.
#[derive(Clone, Copy, Debug, PartialEq, Eq, Structural)]
pub struct Assessment {
    /// What the receiver holds beyond the peg; negative while short of it.
    pub dollars_from_par: USD,
    /// The size of that, as a share of the peg.
    pub percent_from_par: Percent,
    /// Whether the receiver holds less than the peg.
    pub is_receiver_below_expected: bool,
    /// What to do about it.
    pub action: Action,
}

/// What a fetch of the price comes to: the price fetched, or the unknown
/// price where the fetch failed.
pub open spec fn fetched_price<E>(fetched: Result<Price, E>) -> Price {
    match fetched {
        Ok(price) => price,
        Err(_) => Price { micros: 0 },
    }
}

/// The price that an evaluation goes by: the one handed in if it is known,
/// else the cached one if that is known, else none.
pub open spec fn price_to_use(price: Price, cached_price: Price) -> Option<Price> {
    if price.known() {
        Some(price)
    } else if cached_price.known() {
        Some(cached_price)
    } else {
        None
    }
}

/// The record with its price set to `price`.
pub open spec fn with_price(sc: StableChannel, price: Price) -> StableChannel {
    StableChannel { latest_price: price, ..sc }
}

/// What a look at the record finds: the receiver's distance from the peg,
/// in dollars and as a share of the peg, and the action that this calls for.
pub open spec fn assessment(sc: StableChannel) -> Assessment {
    let gap = sc.receiver_usd@ - sc.expected_usd@;
    let share = percent_millis(gap, sc.expected_usd@);
    let below = sc.receiver_usd@ < sc.expected_usd@;
    Assessment {
        dollars_from_par: USD { micros: gap as i128 },
        percent_from_par: Percent { millis: share as u128 },
        is_receiver_below_expected: below,
        action: action_for(share, sc.risk_level as int, sc.is_receiver, below),
    }
}

/// The event that reports a look at the record.
pub open spec fn stability_check(sc: StableChannel) -> AuditEvent {
    AuditEvent::StabilityCheck {
        expected_usd: sc.expected_usd,
        current_receiver_usd: sc.receiver_usd,
        percent_from_par: assessment(sc).percent_from_par,
        btc_price: sc.latest_price,
        action: assessment(sc).action,
        is_receiver: sc.is_receiver,
        risk_level: sc.risk_level,
    }
}

/// The record after an evaluation at `price`: the price is taken over and
/// the balances are brought up to date.
pub open spec fn evaluated(
    sc: StableChannel,
    price: Price,
    onchain_sats: u64,
    channels: Seq<ChannelSnapshot>,
) -> StableChannel {
    reconciled(with_price(sc, price), onchain_sats, channels)
}

/// The events of an evaluation at `price`, in order: the balances, and then
/// either the look at the peg or, without a usable channel, the failure.
pub open spec fn evaluation_events(
    sc: StableChannel,
    price: Price,
    onchain_sats: u64,
    channels: Seq<ChannelSnapshot>,
) -> Seq<AuditEvent> {
    let after = evaluated(sc, price, onchain_sats, channels);
    if usable(sc.channel_id, channels) is Some {
        seq![balance_update(after), stability_check(after)]
    } else {
        seq![balance_update(after), AuditEvent::BalanceUpdateFailed { channel_id: after.channel_id }]
    }
}

/// The payment that an evaluation at `price` calls for, in millisatoshis:
/// the receiver's distance from the peg, where the action is to pay, and
/// none otherwise.
pub open spec fn planned_payment(
    sc: StableChannel,
    price: Price,
    onchain_sats: u64,
    channels: Seq<ChannelSnapshot>,
) -> Option<u64> {
    let after = evaluated(sc, price, onchain_sats, channels);
    if usable(sc.channel_id, channels) is Some && assessment(after).action == Action::Pay {
        Some(msats_of(after.receiver_usd@ - after.expected_usd@, price@) as u64)
    } else {
        None
    }
}

/// The record after the node answered a payment: taken, the payment is
/// marked as made; refused, nothing changes.
pub open spec fn settled(sc: StableChannel, outcome: Result<[u8; 32], String>) -> StableChannel {
    match outcome {
        Ok(_) => StableChannel { payment_made: true, ..sc },
        Err(_) => sc,
    }
}

/// The event that reports the node's answer to a payment of `amount_msats`.
pub open spec fn settlement_event(
    sc: StableChannel,
    amount_msats: u64,
    outcome: Result<[u8; 32], String>,
) -> AuditEvent {
    match outcome {
        Ok(payment_id) => AuditEvent::StabilityPaymentSent {
            amount_msats,
            payment_id,
            counterparty: sc.counterparty,
        },
        Err(error) => AuditEvent::StabilityPaymentFailed {
            amount_msats,
            error,
            counterparty: sc.counterparty,
        },
    }
}

/// The price of the record after a refresh: the record's own while it is
/// known, else the cached one while that is known, else what the fetch came
/// to.
pub open spec fn refreshed_price<E>(latest: Price, cached_price: Price, fetched: Result<Price, E>) -> Price {
    if latest.known() {
        latest
    } else if cached_price.known() {
        cached_price
    } else {
        fetched_price(fetched)
    }
}

/// The record after a refresh of its price and a reconciliation with what
/// the node said.
pub open spec fn updated<E>(
    sc: StableChannel,
    cached_price: Price,
    fetched: Result<Price, E>,
    onchain_sats: u64,
    channels: Seq<ChannelSnapshot>,
) -> StableChannel {
    reconciled(
        with_price(sc, refreshed_price(sc.latest_price, cached_price, fetched)),
        onchain_sats,
        channels,
    )
}

/// The record after one evaluation at `price` and the node's answer to the
/// payment, if one was called for.
pub open spec fn checked(
    sc: StableChannel,
    price: Price,
    onchain_sats: u64,
    channels: Seq<ChannelSnapshot>,
    outcome: Result<[u8; 32], String>,
) -> StableChannel {
    let after = evaluated(sc, price, onchain_sats, channels);
    match planned_payment(sc, price, onchain_sats, channels) {
        Some(_) => settled(after, outcome),
        None => after,
    }
}

/// The events of one evaluation at `price`, in order: those of the
/// evaluation, and then the node's answer to the payment, if one was called
/// for.
pub open spec fn check_events(
    sc: StableChannel,
    price: Price,
    onchain_sats: u64,
    channels: Seq<ChannelSnapshot>,
    outcome: Result<[u8; 32], String>,
) -> Seq<AuditEvent> {
    let after = evaluated(sc, price, onchain_sats, channels);
    match planned_payment(sc, price, onchain_sats, channels) {
        Some(amount_msats) => evaluation_events(sc, price, onchain_sats, channels).push(
            settlement_event(after, amount_msats, outcome),
        ),
        None => evaluation_events(sc, price, onchain_sats, channels),
    }
}

/// The price to go by: the cached one while it is known; else a fresh one is
/// fetched, and a fetch that fails leaves the price unknown. Nothing is
/// fetched while the cache holds a price.
pub fn get_current_price<E, F: FnOnce() -> Result<Price, E>>(cached_price: Price, fetch: F) -> (price:
    Price)
    requires
        !cached_price.known() ==> fetch.requires(()),
    ensures
        cached_price.known() ==> price == cached_price,
        !cached_price.known() ==> exists|fetched: Result<Price, E>|
            fetch.ensures((), fetched) && price == fetched_price(fetched),
{
    if cached_price.is_known() {
        return cached_price;
    }
    let fetched = fetch();
    let ghost answer = fetched;
    let price = match fetched {
        Ok(price) => price,
        Err(_) => Price::unknown(),
    };
    assert(fetch.ensures((), answer) && price == fetched_price(answer));
    price
}

/// Picks the price that an evaluation goes by: the one handed in if it is
/// known, else the cached one if that is known.
pub fn resolve_price(price: Price, cached_price: Price) -> (chosen: Option<Price>)
    ensures
        chosen == price_to_use(price, cached_price),
{
    if price.is_known() {
        Some(price)
    } else if cached_price.is_known() {
        Some(cached_price)
    } else {
        None
    }
}

/// Looks at the record: how far the receiver is from the peg, and what that
/// calls for.
pub fn assess(sc: &StableChannel) -> (found: Assessment)
    requires
        sc.wf(),
    ensures
        found == assessment(*sc),
{
    let percent = percent_from_par(sc.receiver_usd, sc.expected_usd);
    let below = sc.receiver_usd.micros < sc.expected_usd.micros;
    Assessment {
        dollars_from_par: USD { micros: sc.receiver_usd.micros - sc.expected_usd.micros },
        percent_from_par: percent,
        is_receiver_below_expected: below,
        action: select_action(percent, sc.risk_level, sc.is_receiver, below),
    }
}

/// Evaluates the peg at `current_price` against what the node reported, and
/// says what is to be paid, without paying it.
///
/// The price is taken over and the balances are brought up to date. Without
/// a usable channel the failure is reported and nothing is decided. Else the
/// receiver's distance from the peg is measured, the action chosen and
/// reported, and where the action is to pay, the distance in millisatoshis
/// at the price is the answer.
pub fn evaluate_at(
    sc: &mut StableChannel,
    current_price: Price,
    onchain_sats: u64,
    channels: &Vec<ChannelSnapshot>,
    audit: &mut Vec<AuditEvent>,
) -> (payment: Option<u64>)
    requires
        old(sc).wf(),
        current_price.known(),
    ensures
        *final(sc) == evaluated(*old(sc), current_price, onchain_sats, channels@),
        final(audit)@ == old(audit)@ + evaluation_events(
            *old(sc),
            current_price,
            onchain_sats,
            channels@,
        ),
        payment == planned_payment(*old(sc), current_price, onchain_sats, channels@),
        final(sc).wf(),
{
    sc.latest_price = current_price;
    let found = reconcile(sc, onchain_sats, channels, audit);
    if !found {
        audit.push(AuditEvent::BalanceUpdateFailed { channel_id: sc.channel_id });
        return None;
    }
    let look = assess(sc);
    audit.push(
        AuditEvent::StabilityCheck {
            expected_usd: sc.expected_usd,
            current_receiver_usd: sc.receiver_usd,
            percent_from_par: look.percent_from_par,
            btc_price: sc.latest_price,
            action: look.action,
            is_receiver: sc.is_receiver,
            risk_level: sc.risk_level,
        },
    );
    match look.action {
        Action::Pay => look.dollars_from_par.to_msats(sc.latest_price),
        _ => None,
    }
}

/// Evaluates the peg against what the node reported, and says what is to be
/// paid, without paying it.
///
/// The price is the one handed in if it is known, else the cached one.
/// Without either, the skip is reported and the record stays as it was.
pub fn evaluate(
    sc: &mut StableChannel,
    price: Price,
    cached_price: Price,
    onchain_sats: u64,
    channels: &Vec<ChannelSnapshot>,
    audit: &mut Vec<AuditEvent>,
) -> (payment: Option<u64>)
    requires
        old(sc).wf(),
    ensures
        price_to_use(price, cached_price) matches Some(current_price) ==> *final(sc) == evaluated(
            *old(sc),
            current_price,
            onchain_sats,
            channels@,
        ),
        price_to_use(price, cached_price) matches Some(current_price) ==> final(audit)@ == old(
            audit,
        )@ + evaluation_events(*old(sc), current_price, onchain_sats, channels@),
        price_to_use(price, cached_price) matches Some(current_price) ==> payment
            == planned_payment(*old(sc), current_price, onchain_sats, channels@),
        price_to_use(price, cached_price) is None ==> *final(sc) == *old(sc),
        price_to_use(price, cached_price) is None ==> final(audit)@ == old(audit)@.push(
            AuditEvent::StabilitySkip,
        ),
        price_to_use(price, cached_price) is None ==> payment is None,
        final(sc).wf(),
{
    match resolve_price(price, cached_price) {
        Some(current_price) => evaluate_at(sc, current_price, onchain_sats, channels, audit),
        None => {
            audit.push(AuditEvent::StabilitySkip);
            None
        },
    }
}

/// Takes note of the node's answer to a payment of `amount_msats`: taken,
/// the payment is marked as made and reported as sent; refused, it is
/// reported as failed and the mark stays as it was.
pub fn record_payment(
    sc: &mut StableChannel,
    amount_msats: u64,
    outcome: Result<[u8; 32], String>,
    audit: &mut Vec<AuditEvent>,
)
    ensures
        *final(sc) == settled(*old(sc), outcome),
        final(audit)@ == old(audit)@.push(settlement_event(*old(sc), amount_msats, outcome)),
{
    match outcome {
        Ok(payment_id) => {
            sc.payment_made = true;
            audit.push(
                AuditEvent::StabilityPaymentSent {
                    amount_msats,
                    payment_id,
                    counterparty: sc.counterparty,
                },
            );
        },
        Err(error) => {
            audit.push(
                AuditEvent::StabilityPaymentFailed {
                    amount_msats,
                    error,
                    counterparty: sc.counterparty,
                },
            );
        },
    }
}

/// Pays `amount_msats` to the counterparty through the node, once, and takes
/// note of the answer. Whatever the node answers, the record and the audit
/// trail are as `record_payment` leaves them for that answer.
pub fn send_correction(
    node: &Node,
    sc: &mut StableChannel,
    amount_msats: u64,
    audit: &mut Vec<AuditEvent>,
)
    ensures
        exists|outcome: Result<[u8; 32], String>|
            *final(sc) == settled(*old(sc), outcome) && final(audit)@ == old(audit)@.push(
                #[trigger] settlement_event(*old(sc), amount_msats, outcome),
            ),
{
    let outcome = match send_spontaneous(node, amount_msats, sc.counterparty) {
        Ok(payment_id) => Ok(payment_id),
        Err(error) => Err(error_text(&error)),
    };
    record_payment(sc, amount_msats, outcome, audit);
}

/// Brings the record up to date from the node.
///
/// A record without a price first takes the cached one, and without that a
/// freshly fetched one; a fetch that fails leaves the price unknown, and
/// everything is then worth nothing. The node is asked for its on-chain
/// balance and its channels, and the record is reconciled with what it
/// says, as `reconcile` does for those values. The answer is whether a
/// usable channel was found.
pub fn update_balances<E, F: FnOnce() -> Result<Price, E>>(
    node: &Node,
    sc: &mut StableChannel,
    cached_price: Price,
    fetch: F,
    audit: &mut Vec<AuditEvent>,
) -> (found: bool)
    requires
        !old(sc).latest_price.known() && !cached_price.known() ==> fetch.requires(()),
    ensures
        exists|fetched: Result<Price, E>, onchain_sats: u64, channels: Seq<ChannelSnapshot>|
            (!old(sc).latest_price.known() && !cached_price.known() ==> fetch.ensures((), fetched))
                && *final(sc) == #[trigger] updated(
                *old(sc),
                cached_price,
                fetched,
                onchain_sats,
                channels,
            ) && found == (usable(old(sc).channel_id, channels) is Some),
        final(audit)@ == old(audit)@.push(balance_update(*final(sc))),
        old(sc).latest_price.known() ==> final(sc).latest_price == old(sc).latest_price,
        !old(sc).latest_price.known() && cached_price.known() ==> final(sc).latest_price
            == cached_price,
        old(sc).wf() ==> final(sc).wf(),
{
    let ghost mut answer: Result<Price, E> = Ok(cached_price);
    if !sc.latest_price.is_known() {
        sc.latest_price = cached_price;
        if !sc.latest_price.is_known() {
            sc.latest_price = get_current_price(cached_price, fetch);
            proof {
                answer = choose|fetched: Result<Price, E>|
                    fetch.ensures((), fetched) && sc.latest_price == fetched_price(fetched);
            }
        }
    }
    assert(*sc == with_price(
        *old(sc),
        refreshed_price(old(sc).latest_price, cached_price, answer),
    ));
    let onchain_sats = onchain_balance_sats(node);
    let channels = list_channels(node);
    let found = reconcile(sc, onchain_sats, &channels, audit);
    assert(*sc == updated(*old(sc), cached_price, answer, onchain_sats, channels@));
    found
}

/// Evaluates the peg once and pays the difference where this node is the
/// one to pay.
///
/// The price is the one handed in if it is known, else the cached one.
/// Without either, the skip is reported and that is all: the node is not
/// asked and the record stays as it was. Else the node is asked for its
/// on-chain balance and its channels, the peg is evaluated against what it
/// says as `evaluate_at` does for those values, and where that calls for a
/// payment, the payment is handed to the node once and its answer noted as
/// `record_payment` does. No payment is attempted unless the action is to
/// pay.
pub fn check_stability(
    node: &Node,
    sc: &mut StableChannel,
    price: Price,
    cached_price: Price,
    audit: &mut Vec<AuditEvent>,
)
    requires
        old(sc).wf(),
    ensures
        final(sc).wf(),
        price_to_use(price, cached_price) is None ==> *final(sc) == *old(sc),
        price_to_use(price, cached_price) is None ==> final(audit)@ == old(audit)@.push(
            AuditEvent::StabilitySkip,
        ),
        price_to_use(price, cached_price) matches Some(current_price) ==> exists|
            onchain_sats: u64,
            channels: Seq<ChannelSnapshot>,
            outcome: Result<[u8; 32], String>,
        |
            *final(sc) == #[trigger] checked(
                *old(sc),
                current_price,
                onchain_sats,
                channels,
                outcome,
            ) && final(audit)@ == old(audit)@ + check_events(
                *old(sc),
                current_price,
                onchain_sats,
                channels,
                outcome,
            ),
{
    let current_price = match resolve_price(price, cached_price) {
        Some(current_price) => current_price,
        None => {
            audit.push(AuditEvent::StabilitySkip);
            return;
        },
    };
    let onchain_sats = onchain_balance_sats(node);
    let channels = list_channels(node);
    match evaluate_at(sc, current_price, onchain_sats, &channels, audit) {
        Some(amount_msats) => {
            let ghost after = *sc;
            let ghost trail = audit@;
            send_correction(node, sc, amount_msats, audit);
            proof {
                let outcome = choose|outcome: Result<[u8; 32], String>|
                    *sc == settled(after, outcome) && audit@ == trail.push(
                        #[trigger] settlement_event(after, amount_msats, outcome),
                    );
                assert(*sc == checked(*old(sc), current_price, onchain_sats, channels@, outcome));
            }
        },
        None => {
            proof {
                // No payment was called for, so any answer will do.
                let outcome: Result<[u8; 32], String> = arbitrary();
                assert(*sc == checked(*old(sc), current_price, onchain_sats, channels@, outcome));
            }
        },
    }
}

/// The action is `Stable` exactly while the receiver's distance from the peg
/// is less than a thousandth of the peg.
pub proof fn lemma_stable_within_a_thousandth(sc: StableChannel)
    requires
        sc.expected_usd@ != 0,
    ensures
        assessment(sc).action == Action::Stable <==> abs(sc.receiver_usd@ - sc.expected_usd@) * 1000
            < abs(sc.expected_usd@),
{
    lemma_deadband_is_exact(sc.receiver_usd@ - sc.expected_usd@, sc.expected_usd@);
}

/// An evaluation changes what was seen, not what was agreed: the peg, the
/// parts, the counterparty and the risk level stay, and so does the mark of
/// a payment.
pub proof fn lemma_evaluation_keeps_the_terms(
    sc: StableChannel,
    price: Price,
    onchain_sats: u64,
    channels: Seq<ChannelSnapshot>,
)
    ensures
        evaluated(sc, price, onchain_sats, channels).expected_usd == sc.expected_usd,
        evaluated(sc, price, onchain_sats, channels).is_receiver == sc.is_receiver,
        evaluated(sc, price, onchain_sats, channels).counterparty == sc.counterparty,
        evaluated(sc, price, onchain_sats, channels).risk_level == sc.risk_level,
        evaluated(sc, price, onchain_sats, channels).payment_made == sc.payment_made,
        evaluated(sc, price, onchain_sats, channels).latest_price == price,
{
}

/// A payment is called for exactly where a usable channel was found and the
/// action is to pay.
pub proof fn lemma_payment_only_on_pay(
    sc: StableChannel,
    price: Price,
    onchain_sats: u64,
    channels: Seq<ChannelSnapshot>,
)
    ensures
        planned_payment(sc, price, onchain_sats, channels) is Some <==> usable(
            sc.channel_id,
            channels,
        ) is Some && assessment(evaluated(sc, price, onchain_sats, channels)).action == Action::Pay,
{
}

/// Where no payment is called for, the node's answer plays no part: the
/// record is as the evaluation left it, the mark of a payment is as it was
/// before, and the trail holds the events of the evaluation and no more.
pub proof fn lemma_no_payment_without_pay(
    sc: StableChannel,
    price: Price,
    onchain_sats: u64,
    channels: Seq<ChannelSnapshot>,
    outcome: Result<[u8; 32], String>,
)
    requires
        planned_payment(sc, price, onchain_sats, channels) is None,
    ensures
        checked(sc, price, onchain_sats, channels, outcome) == evaluated(
            sc,
            price,
            onchain_sats,
            channels,
        ),
        checked(sc, price, onchain_sats, channels, outcome).payment_made == sc.payment_made,
        check_events(sc, price, onchain_sats, channels, outcome) == evaluation_events(
            sc,
            price,
            onchain_sats,
            channels,
        ),
{
}

/// The side that would have to be paid pays nothing: a receiver that is
/// short of the peg, and a provider whose receiver is not, call for no
/// payment, however far from the peg and whatever the risk level.
pub proof fn lemma_wrong_direction_pays_nothing(
    sc: StableChannel,
    price: Price,
    onchain_sats: u64,
    channels: Seq<ChannelSnapshot>,
)
    requires
        sc.is_receiver == (evaluated(sc, price, onchain_sats, channels).receiver_usd@
            < sc.expected_usd@),
    ensures
        planned_payment(sc, price, onchain_sats, channels) is None,
        assessment(evaluated(sc, price, onchain_sats, channels)).action != Action::Pay,
{
}

/// Above the risk limit nothing is paid, whoever is short.
pub proof fn lemma_high_risk_pays_nothing(
    sc: StableChannel,
    price: Price,
    onchain_sats: u64,
    channels: Seq<ChannelSnapshot>,
)
    requires
        sc.risk_level > RISK_LIMIT,
    ensures
        planned_payment(sc, price, onchain_sats, channels) is None,
{
}

} // verus!
