use endur::audit::AuditEvent;
use endur::channel::{ChannelId, ChannelSnapshot};
use endur::money::{Bitcoin, Price, USD};
use endur::policy::{Action, Percent};
use endur::stable::{assess, evaluate, evaluate_at, get_current_price, record_payment, resolve_price};
use endur::tracker::StableChannel;
use ldk_node::bitcoin::secp256k1::PublicKey;

const DOLLAR: i128 = 1_000_000;

fn counterparty() -> PublicKey {
    let mut bytes = [0u8; 33];
    bytes[0] = 0x02;
    let x: [u8; 32] = [
        0x79, 0xbe, 0x66, 0x7e, 0xf9, 0xdc, 0xbb, 0xac, 0x55, 0xa0, 0x62, 0x95, 0xce, 0x87, 0x0b,
        0x07, 0x02, 0x9b, 0xfc, 0xdb, 0x2d, 0xce, 0x28, 0xd9, 0x59, 0xf2, 0x81, 0x5b, 0x16, 0xf8,
        0x17, 0x98,
    ];
    bytes[1..].copy_from_slice(&x);
    PublicKey::from_slice(&bytes).unwrap()
}

fn id(tag: u8) -> ChannelId {
    let mut bytes = [0u8; 32];
    bytes[0] = tag;
    ChannelId::from_bytes(bytes)
}

fn sixty_thousand() -> Price {
    Price::from_micros(60_000_000_000)
}

/// A peg of 100 dollars on channel 1, at risk level `risk`.
fn record(is_receiver: bool, risk: i32) -> StableChannel {
    StableChannel::new(id(1), is_receiver, counterparty(), USD::from_micros(100 * DOLLAR), risk).unwrap()
}

/// Channel 1 with a capacity of a million satoshis, of which `ours` are on
/// this side.
fn channels(ours: u64) -> Vec<ChannelSnapshot> {
    vec![ChannelSnapshot {
        channel_id: id(1),
        channel_value_sats: 1_000_000,
        outbound_capacity_msat: ours * 1_000,
        unspendable_punishment_reserve: None,
    }]
}

/// The satoshis that `dollars` are at 60 000 dollars a bitcoin.
fn sats_for(dollars: u64) -> u64 {
    dollars * 100_000_000 / 60_000
}

fn check_event(receiver_micros: i128, millis: u128, action: Action, is_receiver: bool, risk: i32) -> AuditEvent {
    AuditEvent::StabilityCheck {
        expected_usd: USD::from_micros(100 * DOLLAR),
        current_receiver_usd: USD::from_micros(receiver_micros),
        percent_from_par: Percent { millis },
        btc_price: sixty_thousand(),
        action,
        is_receiver,
        risk_level: risk,
    }
}

#[test]
fn the_price_handed_in_comes_first() {
    let a = Price::from_micros(5);
    let b = Price::from_micros(7);
    assert_eq!(resolve_price(a, b), Some(a));
    assert_eq!(resolve_price(a, Price::unknown()), Some(a));
    assert_eq!(resolve_price(Price::unknown(), b), Some(b));
    assert_eq!(resolve_price(Price::unknown(), Price::unknown()), None);
}

#[test]
fn a_cached_price_is_not_fetched_again() {
    let cached = Price::from_micros(5);
    let price = get_current_price(cached, || -> Result<Price, ()> { panic!("fetched with a price in the cache") });
    assert_eq!(price, cached);
}

#[test]
fn without_a_cached_price_one_is_fetched() {
    let mut calls = 0;
    let price = get_current_price(Price::unknown(), || -> Result<Price, ()> {
        calls += 1;
        Ok(Price::from_micros(9))
    });
    assert_eq!(price, Price::from_micros(9));
    assert_eq!(calls, 1);
}

#[test]
fn a_failed_fetch_leaves_the_price_unknown() {
    let price = get_current_price(Price::unknown(), || Err::<Price, &str>("no route to host"));
    assert_eq!(price, Price::unknown());
    assert!(!price.is_known());
}

#[test]
fn a_look_at_a_short_receiver() {
    let mut sc = record(true, 10);
    sc.receiver_usd = USD::from_micros(94 * DOLLAR);
    let look = assess(&sc);
    assert_eq!(look.dollars_from_par, USD::from_micros(-6 * DOLLAR));
    assert_eq!(look.percent_from_par, Percent { millis: 6_000 });
    assert!(look.is_receiver_below_expected);
    assert_eq!(look.action, Action::CheckOnly);
}

#[test]
fn a_look_at_a_receiver_on_the_peg() {
    let mut sc = record(false, 500);
    sc.receiver_usd = USD::from_micros(100 * DOLLAR);
    let look = assess(&sc);
    assert_eq!(look.dollars_from_par, USD::from_micros(0));
    assert_eq!(look.percent_from_par, Percent { millis: 0 });
    assert!(!look.is_receiver_below_expected);
    assert_eq!(look.action, Action::Stable);
}

#[test]
fn receiver_at_94_of_100_dollars_only_checks() {
    // The receiver is this node and is short: the provider has to pay.
    let mut sc = record(true, 10);
    let mut audit = Vec::new();
    let payment = evaluate(&mut sc, sixty_thousand(), Price::unknown(), 0, &channels(sats_for(94)), &mut audit);
    assert_eq!(sc.receiver_usd, USD::from_micros(93_999_600));
    assert_eq!(payment, None);
    assert_eq!(audit.len(), 2);
    assert_eq!(audit[1], check_event(93_999_600, 6_000, Action::CheckOnly, true, 10));
    assert!(!sc.payment_made);
}

#[test]
fn provider_pays_a_receiver_at_94_of_100_dollars() {
    // 156 666 satoshis at 60 000 dollars are 93.9996 dollars; with exactly
    // 94 dollars on the receiver's side the payment is 6 dollars' worth.
    let mut sc = record(false, 10);
    let mut audit = Vec::new();
    // The receiver's side is the rest of the capacity.
    let theirs = 156_667;
    let payment =
        evaluate(&mut sc, sixty_thousand(), Price::unknown(), 0, &channels(1_000_000 - theirs), &mut audit);
    assert_eq!(sc.receiver_btc, Bitcoin::from_sats(156_667));
    assert_eq!(sc.receiver_usd, USD::from_micros(94_000_200));
    // 5.9998 dollars at 60 000 dollars a bitcoin: 9 999 666.67 millisatoshis.
    assert_eq!(payment, Some(9_999_667));
    assert_eq!(audit[1], check_event(94_000_200, 5_999, Action::Pay, false, 10));
}

#[test]
fn six_dollars_off_a_peg_of_a_hundred_is_six_percent_and_ten_thousand_sats() {
    // At 50 000 dollars a bitcoin 94 dollars are 188 000 satoshis exactly.
    let price = Price::from_micros(50_000_000_000);
    let mut sc = record(false, 10);
    let mut audit = Vec::new();
    let payment = evaluate(&mut sc, price, Price::unknown(), 0, &channels(1_000_000 - 188_000), &mut audit);
    assert_eq!(sc.receiver_usd, USD::from_micros(94 * DOLLAR));
    let look = assess(&sc);
    assert_eq!(look.percent_from_par, Percent { millis: 6_000 });
    assert_eq!(look.action, Action::Pay);
    // 6 dollars at 50 000 dollars a bitcoin are 12 000 satoshis.
    assert_eq!(payment, Some(12_000_000));
    assert_eq!(payment, USD::from_micros(6 * DOLLAR).to_msats(price));
}

#[test]
fn receiver_over_the_peg_pays_the_excess() {
    let price = Price::from_micros(50_000_000_000);
    let mut sc = record(true, 10);
    let mut audit = Vec::new();
    // 212 000 satoshis at 50 000 dollars are 106 dollars.
    let payment = evaluate(&mut sc, price, Price::unknown(), 0, &channels(212_000), &mut audit);
    assert_eq!(sc.receiver_usd, USD::from_micros(106 * DOLLAR));
    assert_eq!(payment, Some(12_000_000));
}

#[test]
fn provider_only_checks_a_receiver_over_the_peg() {
    let price = Price::from_micros(50_000_000_000);
    let mut sc = record(false, 10);
    let mut audit = Vec::new();
    let payment = evaluate(&mut sc, price, Price::unknown(), 0, &channels(1_000_000 - 212_000), &mut audit);
    assert_eq!(sc.receiver_usd, USD::from_micros(106 * DOLLAR));
    assert_eq!(payment, None);
    match &audit[1] {
        AuditEvent::StabilityCheck { action, .. } => assert_eq!(*action, Action::CheckOnly),
        other => panic!("{:?}", other),
    }
}

#[test]
fn high_risk_pays_nothing_in_either_direction() {
    let price = Price::from_micros(50_000_000_000);
    for is_receiver in [false, true] {
        for receiver_sats in [188_000u64, 212_000] {
            let ours = if is_receiver { receiver_sats } else { 1_000_000 - receiver_sats };
            let mut sc = record(is_receiver, 101);
            let mut audit = Vec::new();
            let payment = evaluate(&mut sc, price, Price::unknown(), 0, &channels(ours), &mut audit);
            assert_eq!(payment, None);
            match &audit[1] {
                AuditEvent::StabilityCheck { action, risk_level, .. } => {
                    assert_eq!(*action, Action::HighRiskNoAction);
                    assert_eq!(*risk_level, 101);
                }
                other => panic!("{:?}", other),
            }
        }
    }
}

#[test]
fn within_the_deadband_nothing_is_paid() {
    let price = Price::from_micros(50_000_000_000);
    // 200 000 satoshis are 100 dollars; 199 and 201 more or less are
    // 0.0995 % and 0.1005 % off.
    for (receiver_sats, expected) in [
        (200_000u64, None),
        (200_199, None),
        (199_801, None),
        (200_200, Some(200_000u64)),
        (200_201, Some(201_000)),
    ] {
        let mut sc = record(true, 10);
        let mut audit = Vec::new();
        let payment = evaluate(&mut sc, price, Price::unknown(), 0, &channels(receiver_sats), &mut audit);
        assert_eq!(payment, expected, "{} sats", receiver_sats);
    }
}

#[test]
fn exactly_a_tenth_of_a_percent_is_outside_the_deadband() {
    let price = Price::from_micros(50_000_000_000);
    // 199 800 satoshis are 99.90 dollars: exactly 0.1 % short.
    let mut sc = record(false, 10);
    let mut audit = Vec::new();
    let payment = evaluate(&mut sc, price, Price::unknown(), 0, &channels(1_000_000 - 199_800), &mut audit);
    assert_eq!(sc.receiver_usd, USD::from_micros(99_900_000));
    assert_eq!(audit[1], AuditEvent::StabilityCheck {
        expected_usd: USD::from_micros(100 * DOLLAR),
        current_receiver_usd: USD::from_micros(99_900_000),
        percent_from_par: Percent { millis: 100 },
        btc_price: price,
        action: Action::Pay,
        is_receiver: false,
        risk_level: 10,
    });
    assert_eq!(payment, Some(200_000));
}

#[test]
fn without_any_price_the_evaluation_is_skipped() {
    let mut sc = record(true, 10);
    sc.receiver_btc = Bitcoin::from_sats(5);
    let before = sc.clone();
    let mut audit = Vec::new();
    let payment = evaluate(&mut sc, Price::unknown(), Price::unknown(), 77, &channels(188_000), &mut audit);
    assert_eq!(payment, None);
    assert_eq!(audit, vec![AuditEvent::StabilitySkip]);
    assert_eq!(audit[0].name(), "STABILITY_SKIP");
    assert_eq!(sc, before);
}

#[test]
fn the_cached_price_stands_in_for_a_missing_one() {
    let mut sc = record(true, 10);
    let mut audit = Vec::new();
    evaluate(&mut sc, Price::unknown(), sixty_thousand(), 0, &channels(188_000), &mut audit);
    assert_eq!(sc.latest_price, sixty_thousand());
    let mut sc = record(true, 10);
    evaluate(&mut sc, Price::from_micros(50_000_000_000), sixty_thousand(), 0, &channels(188_000), &mut audit);
    assert_eq!(sc.latest_price, Price::from_micros(50_000_000_000));
}

#[test]
fn without_a_channel_nothing_is_decided() {
    let mut sc = record(false, 10);
    let mut audit = Vec::new();
    let payment = evaluate(&mut sc, sixty_thousand(), Price::unknown(), 1_000, &Vec::new(), &mut audit);
    assert_eq!(payment, None);
    assert_eq!(audit.len(), 2);
    assert_eq!(audit[0].name(), "BALANCE_UPDATE");
    assert_eq!(audit[1], AuditEvent::BalanceUpdateFailed { channel_id: id(1) });
    assert_eq!(audit[1].name(), "BALANCE_UPDATE_FAILED");
    // What could be brought up to date was.
    assert_eq!(sc.latest_price, sixty_thousand());
    assert_eq!(sc.onchain_btc, Bitcoin::from_sats(1_000));
    assert_eq!(sc.onchain_usd, USD::from_micros(600_000));
    assert_eq!(sc.receiver_btc, Bitcoin::from_sats(0));
}

#[test]
fn an_evaluation_reports_the_balances_and_then_the_check() {
    let price = Price::from_micros(50_000_000_000);
    let mut sc = record(true, 10);
    let mut audit = vec![AuditEvent::StabilitySkip];
    evaluate_at(&mut sc, price, 0, &channels(200_000), &mut audit);
    assert_eq!(audit.len(), 3);
    assert_eq!(audit[0], AuditEvent::StabilitySkip);
    assert_eq!(audit[1], sc.balance_update_event());
    assert_eq!(audit[2].name(), "STABILITY_CHECK");
    assert_eq!(audit[2], AuditEvent::StabilityCheck {
        expected_usd: USD::from_micros(100 * DOLLAR),
        current_receiver_usd: USD::from_micros(100 * DOLLAR),
        percent_from_par: Percent { millis: 0 },
        btc_price: price,
        action: Action::Stable,
        is_receiver: true,
        risk_level: 10,
    });
}

#[test]
fn a_huge_peg_is_paid_as_far_as_an_amount_goes() {
    let mut sc = StableChannel::new(
        id(1),
        false,
        counterparty(),
        USD::from_micros(endur::money::USD_LIMIT_MICROS),
        10,
    )
    .unwrap();
    let mut audit = Vec::new();
    let payment = evaluate(&mut sc, Price::from_micros(1), Price::unknown(), 0, &channels(0), &mut audit);
    assert_eq!(payment, Some(u64::MAX));
}

#[test]
fn a_payment_taken_is_marked_and_reported() {
    let mut sc = record(false, 10);
    let mut audit = Vec::new();
    record_payment(&mut sc, 12_000_000, Ok([7u8; 32]), &mut audit);
    assert!(sc.payment_made);
    assert_eq!(audit, vec![AuditEvent::StabilityPaymentSent {
        amount_msats: 12_000_000,
        payment_id: [7u8; 32],
        counterparty: counterparty(),
    }]);
    assert_eq!(audit[0].name(), "STABILITY_PAYMENT_SENT");
}

#[test]
fn a_payment_refused_is_reported_and_not_marked() {
    let mut sc = record(false, 10);
    let before = sc.clone();
    let mut audit = Vec::new();
    record_payment(&mut sc, 12_000_000, Err("no route".to_string()), &mut audit);
    assert_eq!(sc, before);
    assert!(!sc.payment_made);
    assert_eq!(audit, vec![AuditEvent::StabilityPaymentFailed {
        amount_msats: 12_000_000,
        error: "no route".to_string(),
        counterparty: counterparty(),
    }]);
    assert_eq!(audit[0].name(), "STABILITY_PAYMENT_FAILED");
}

#[test]
fn a_refusal_does_not_take_back_an_earlier_mark() {
    let mut sc = record(false, 10);
    sc.payment_made = true;
    let mut audit = Vec::new();
    record_payment(&mut sc, 1, Err("no route".to_string()), &mut audit);
    assert!(sc.payment_made);
}
