//! Exact integer money: bitcoin in satoshis, dollars in millionths, and the
//! price that converts between them.
//!
//! Nothing here is stored or computed in floating point. A conversion
//! multiplies exactly and rounds once, to the nearest unit, ties to even.

use vstd::prelude::*;
use crate::rounding::{distance, div_round_half_even, round_half_even};
use crate::rounding::{lemma_round_half_even_bounds, lemma_round_half_even_nearest};

verus! {

/// Satoshis in one bitcoin.
pub const SATS_PER_BTC: u64 = 100_000_000;

/// Millisatoshis in one satoshi.
pub const MSATS_PER_SAT: u64 = 1_000;

/// Millisatoshis in one bitcoin.
pub const MSATS_PER_BTC: u64 = 100_000_000_000;

/// Millionths in one dollar.
pub const MICROS_PER_USD: u64 = 1_000_000;

/// Two to the power 102, in millionths of a dollar. Whatever a balance of
/// satoshis is worth, at whatever price, lies below it.
pub const USD_LIMIT_MICROS: i128 = 5_070_602_400_912_917_605_986_812_821_504;

/// What `sats` satoshis are worth, in millionths of a dollar, at `price`
/// millionths of a dollar per bitcoin.
pub open spec fn usd_micros_of(sats: nat, price: nat) -> nat {
    round_half_even(sats * price, SATS_PER_BTC as nat)
}

/// The satoshis that `micros` millionths of a dollar buy at `price`: nothing
/// for a debt, and no more than a `u64` holds.
pub open spec fn sats_of(micros: int, price: nat) -> nat
    recommends
        price > 0,
{
    if micros <= 0 {
        0
    } else {
        let sats = round_half_even((micros * SATS_PER_BTC) as nat, price);
        if sats > u64::MAX {
            u64::MAX as nat
        } else {
            sats
        }
    }
}

/// The millisatoshis that make up `micros` millionths of a dollar at `price`,
/// whichever sign the amount has, and no more than a `u64` holds.
pub open spec fn msats_of(micros: int, price: nat) -> nat
    recommends
        price > 0,
{
    let msats = round_half_even(vstd::math::abs(micros) * (MSATS_PER_BTC as nat), price);
    if msats > u64::MAX {
        u64::MAX as nat
    } else {
        msats
    }
}

/// An amount of bitcoin, counted in satoshis.
#[derive(Clone, Copy, Debug, PartialEq, Eq, Structural)]
pub struct Bitcoin {
    pub sats: u64,
}

/// The price of one bitcoin in millionths of a dollar. Zero stands for a
/// price that is not known.
#[derive(Clone, Copy, Debug, PartialEq, Eq, Structural)]
pub struct Price {
    pub micros: u64,
}

/// An amount of dollars, counted in millionths; a negative amount is a
/// shortfall.
#[derive(Clone, Copy, Debug, PartialEq, Eq, Structural)]
pub struct USD {
    pub micros: i128,
}

impl View for Bitcoin {
    type V = nat;

    open spec fn view(&self) -> nat {
        self.sats as nat
    }
}

impl View for Price {
    type V = nat;

    open spec fn view(&self) -> nat {
        self.micros as nat
    }
}

impl View for USD {
    type V = int;

    open spec fn view(&self) -> int {
        self.micros as int
    }
}

impl Price {
    /// The price of `micros` millionths of a dollar per bitcoin.
    pub fn from_micros(micros: u64) -> (price: Price)
        ensures
            price@ == micros,
    {
        Price { micros }
    }

    /// The price that is not known.
    pub fn unknown() -> (price: Price)
        ensures
            price@ == 0,
            !price.known(),
    {
        Price { micros: 0 }
    }

    /// Whether this is a price to convert at.
    pub open spec fn known(&self) -> bool {
        self@ > 0
    }

    /// Whether this is a price to convert at.
    pub fn is_known(&self) -> (known: bool)
        ensures
            known == self.known(),
    {
        self.micros > 0
    }
}

impl Bitcoin {
    /// The amount of `sats` satoshis.
    pub fn from_sats(sats: u64) -> (btc: Bitcoin)
        ensures
            btc@ == sats,
    {
        Bitcoin { sats }
    }

    /// The amount in millisatoshis, unless a `u64` cannot hold it.
    pub fn to_msats(self) -> (msats: Option<u64>)
        ensures
            self@ * MSATS_PER_SAT <= u64::MAX ==> msats == Some((self@ * MSATS_PER_SAT) as u64),
            self@ * MSATS_PER_SAT > u64::MAX ==> msats is None,
    {
        self.sats.checked_mul(MSATS_PER_SAT)
    }

    /// The bitcoin that `usd` buys at `price`, rounded to the nearest
    /// satoshi. A debt buys nothing, an amount beyond the largest balance
    /// buys the largest balance, and an unknown price converts nothing.
    pub fn from_usd(usd: USD, price: Price) -> (btc: Option<Bitcoin>)
        ensures
            price.known() ==> btc is Some && btc->0@ == sats_of(usd@, price@),
            !price.known() ==> btc is None,
    {
        if price.micros == 0 {
            return None;
        }
        if usd.micros <= 0 {
            return Some(Bitcoin { sats: 0 });
        }
        let micros: u128 = usd.micros as u128;
        let divisor: u128 = price.micros as u128;
        match micros.checked_mul(SATS_PER_BTC as u128) {
            Some(scaled) => {
                let sats: u128 = div_round_half_even(scaled, divisor);
                if sats > u64::MAX as u128 {
                    Some(Bitcoin { sats: u64::MAX })
                } else {
                    Some(Bitcoin { sats: sats as u64 })
                }
            },
            None => {
                proof {
                    lemma_quotient_beyond_u64((micros * SATS_PER_BTC) as nat, divisor as nat);
                }
                Some(Bitcoin { sats: u64::MAX })
            },
        }
    }
}

impl USD {
    /// The amount of `micros` millionths of a dollar.
    pub fn from_micros(micros: i128) -> (usd: USD)
        ensures
            usd@ == micros,
    {
        USD { micros }
    }

    /// Whether the amount is one that a balance can be worth, or the
    /// shortfall of one.
    pub open spec fn in_range(&self) -> bool {
        -(USD_LIMIT_MICROS as int) <= self@ <= USD_LIMIT_MICROS as int
    }

    /// Whether the amount is one that a balance can be worth, or the
    /// shortfall of one.
    pub fn is_in_range(&self) -> (within: bool)
        ensures
            within == self.in_range(),
    {
        -USD_LIMIT_MICROS <= self.micros && self.micros <= USD_LIMIT_MICROS
    }

    /// What `btc` is worth at `price`, rounded to the nearest millionth of a
    /// dollar. At an unknown price it is worth nothing.
    pub fn from_bitcoin(btc: Bitcoin, price: Price) -> (usd: USD)
        ensures
            usd@ == usd_micros_of(btc@, price@),
            0 <= usd@ < USD_LIMIT_MICROS,
    {
        let sats: u128 = btc.sats as u128;
        let rate: u128 = price.micros as u128;
        proof {
            lemma_usd_micros_below_limit(btc@, price@);
        }
        assert(sats * rate <= 0xffff_ffff_ffff_ffff * 0xffff_ffff_ffff_ffff) by (nonlinear_arith)
            requires
                sats <= 0xffff_ffff_ffff_ffff,
                rate <= 0xffff_ffff_ffff_ffff,
        ;
        let micros: u128 = div_round_half_even(sats * rate, SATS_PER_BTC as u128);
        USD { micros: micros as i128 }
    }

    /// The size of the amount in millisatoshis at `price`, rounded to the
    /// nearest one and no more than a `u64` holds. The sign is dropped: a
    /// shortfall of six dollars and an excess of six dollars are made good
    /// by the same payment. An unknown price converts nothing.
    pub fn to_msats(self, price: Price) -> (msats: Option<u64>)
        ensures
            price.known() ==> msats == Some(msats_of(self@, price@) as u64),
            !price.known() ==> msats is None,
    {
        if price.micros == 0 {
            return None;
        }
        let size: u128 = magnitude(self.micros);
        let divisor: u128 = price.micros as u128;
        match size.checked_mul(MSATS_PER_BTC as u128) {
            Some(scaled) => {
                let msats: u128 = div_round_half_even(scaled, divisor);
                if msats > u64::MAX as u128 {
                    Some(u64::MAX)
                } else {
                    Some(msats as u64)
                }
            },
            None => {
                proof {
                    lemma_quotient_beyond_u64((size * MSATS_PER_BTC) as nat, divisor as nat);
                }
                Some(u64::MAX)
            },
        }
    }
}

/// The size of `x` without its sign.
fn magnitude(x: i128) -> (size: u128)
    ensures
        size == vstd::math::abs(x as int),
{
    if x >= 0 {
        x as u128
    } else {
        // `-(x + 1)` is never beyond an `i128`, as `-x` is for the least one.
        (-(x + 1)) as u128 + 1
    }
}

/// A dividend beyond a `u128`, divided by a `u64`, gives more than a `u64`.
proof fn lemma_quotient_beyond_u64(n: nat, d: nat)
    requires
        n > u128::MAX,
        0 < d <= u64::MAX,
    ensures
        round_half_even(n, d) > u64::MAX,
{
    lemma_round_half_even_bounds(n, d);
    assert(n / d > 0xffff_ffff_ffff_ffff) by (nonlinear_arith)
        requires
            n > 0xffff_ffff_ffff_ffff_ffff_ffff_ffff_ffff,
            0 < d <= 0xffff_ffff_ffff_ffff,
    ;
}

/// Whatever a `u64` of satoshis is worth at a `u64` price lies below the
/// limit of dollar amounts.
pub proof fn lemma_usd_micros_below_limit(sats: nat, price: nat)
    requires
        sats <= u64::MAX,
        price <= u64::MAX,
    ensures
        usd_micros_of(sats, price) < USD_LIMIT_MICROS,
{
    let n = sats * price;
    assert(n <= 0xffff_ffff_ffff_ffff * 0xffff_ffff_ffff_ffff) by (nonlinear_arith)
        requires
            n == sats * price,
            sats <= 0xffff_ffff_ffff_ffff,
            price <= 0xffff_ffff_ffff_ffff,
    ;
    lemma_round_half_even_bounds(n, SATS_PER_BTC as nat);
}

/// Bitcoin turned into dollars and back at one price comes back changed by
/// less than the two roundings can hide: the difference, valued at the
/// price, is at most half a millionth of a dollar and half a satoshi.
pub proof fn lemma_round_trip_bound(btc: Bitcoin, price: Price)
    requires
        price.known(),
    ensures
        2 * distance(sats_of(usd_micros_of(btc@, price@) as int, price@) as int, btc@ as int)
            * price@ <= SATS_PER_BTC + price@,
{
    let b = btc@;
    let p = price@;
    let s = SATS_PER_BTC as nat;
    let q = usd_micros_of(b, p);
    lemma_round_half_even_nearest(b * p, s);
    if q > 0 {
        let back = round_half_even((q * s) as nat, p);
        lemma_round_half_even_nearest((q * s) as nat, p);
        let kept = sats_of(q as int, p);
        assert(distance(kept as int, b as int) <= distance(back as int, b as int));
        assert(2 * distance(back as int, b as int) * p <= s + p) by (nonlinear_arith)
            requires
                2 * distance((q * s) as int, (b * p) as int) <= s,
                2 * distance((back * p) as int, (q * s) as int) <= p,
                p > 0,
        ;
        assert(2 * distance(kept as int, b as int) * p <= 2 * distance(back as int, b as int) * p)
            by (nonlinear_arith)
            requires
                distance(kept as int, b as int) <= distance(back as int, b as int),
                p > 0,
        ;
    } else {
        assert(2 * (b * p) <= s);
        assert(2 * distance(0, b as int) * p == 2 * (b * p)) by (nonlinear_arith);
    }
}

/// Where a millionth of a dollar is worth no more than a satoshi, that is
/// from a price of a hundred dollars a bitcoin, bitcoin turned into dollars
/// and back at one price comes back within one satoshi.
pub proof fn lemma_round_trip_within_one_sat(btc: Bitcoin, price: Price)
    requires
        price@ >= SATS_PER_BTC,
    ensures
        distance(sats_of(usd_micros_of(btc@, price@) as int, price@) as int, btc@ as int) <= 1,
{
    lemma_round_trip_bound(btc, price);
    let d = distance(sats_of(usd_micros_of(btc@, price@) as int, price@) as int, btc@ as int);
    let p = price@;
    assert(d <= 1) by (nonlinear_arith)
        requires
            2 * d * p <= SATS_PER_BTC + p,
            p >= SATS_PER_BTC,
            SATS_PER_BTC == 100_000_000,
    ;
}

} // verus!
