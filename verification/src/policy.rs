//! The stability policy: how far the receiver's balance is from the peg, and
//! what to do about it.

use vstd::prelude::*;
use vstd::math::abs;
use crate::money::USD;

verus! {

/// Thousandths of a percent in the whole: a ratio of one is 100 %.
pub const MILLI_PERCENT_PER_UNIT: u128 = 100_000;

/// The deadband, 0.1 %, in thousandths of a percent. A deviation below it
/// calls for nothing.
pub const DEADBAND_MILLI_PERCENT: u128 = 100;

/// The highest risk level at which a payment is still made.
pub const RISK_LIMIT: i32 = 100;

/// A share, counted in thousandths of a percent.
#[derive(Clone, Copy, Debug, PartialEq, Eq, Structural)]
pub struct Percent {
    pub millis: u128,
}

impl View for Percent {
    type V = nat;

    open spec fn view(&self) -> nat {
        self.millis as nat
    }
}

/// What one evaluation of the peg decides.
#[derive(Clone, Copy, Debug, PartialEq, Eq, Structural)]
pub enum Action {
    /// The balance is within the deadband.
    Stable,
    /// The balance is off the peg, but the risk level forbids paying.
    HighRiskNoAction,
    /// The balance is off the peg in the direction that the other side has
    /// to correct.
    CheckOnly,
    /// The balance is off the peg and this side pays the difference.
    Pay,
}

/// The deviation `dollars_from_par` as a share of the peg `expected`, in
/// thousandths of a percent, rounded down.
pub open spec fn percent_millis(dollars_from_par: int, expected: int) -> nat
    recommends
        expected != 0,
{
    abs(dollars_from_par) * (MILLI_PERCENT_PER_UNIT as nat) / abs(expected)
}

/// The action for a deviation of `percent` thousandths of a percent. The
/// deadband is asked first, then the risk level, then the direction.
pub open spec fn action_for(percent: nat, risk_level: int, is_receiver: bool, below: bool) -> Action {
    if percent < DEADBAND_MILLI_PERCENT {
        Action::Stable
    } else if risk_level > RISK_LIMIT {
        Action::HighRiskNoAction
    } else if is_receiver == below {
        Action::CheckOnly
    } else {
        Action::Pay
    }
}

impl Action {
    /// The name under which the action is reported.
    pub open spec fn tag(self) -> Seq<char> {
        match self {
            Action::Stable => "STABLE"@,
            Action::HighRiskNoAction => "HIGH_RISK_NO_ACTION"@,
            Action::CheckOnly => "CHECK_ONLY"@,
            Action::Pay => "PAY"@,
        }
    }

    /// The name under which the action is reported.
    pub fn as_str(&self) -> (name: &'static str)
        ensures
            name@ == self.tag(),
    {
        match self {
            Action::Stable => "STABLE",
            Action::HighRiskNoAction => "HIGH_RISK_NO_ACTION",
            Action::CheckOnly => "CHECK_ONLY",
            Action::Pay => "PAY",
        }
    }
}

/// How far `receiver_usd` is from the peg `expected_usd`, as a share of the
/// peg. The share is rounded down, so it is below the deadband exactly when
/// the true ratio is.
pub fn percent_from_par(receiver_usd: USD, expected_usd: USD) -> (percent: Percent)
    requires
        receiver_usd.in_range(),
        expected_usd.in_range(),
        expected_usd@ != 0,
    ensures
        percent@ == percent_millis(receiver_usd@ - expected_usd@, expected_usd@),
{
    let gap: i128 = receiver_usd.micros - expected_usd.micros;
    let size: u128 = if gap >= 0 {
        gap as u128
    } else {
        (-gap) as u128
    };
    let peg: u128 = if expected_usd.micros >= 0 {
        expected_usd.micros as u128
    } else {
        (-expected_usd.micros) as u128
    };
    Percent { millis: size * MILLI_PERCENT_PER_UNIT / peg }
}

/// Chooses the action for a deviation of `percent` from the peg, where
/// `below` says that the receiver holds less than the peg.
pub fn select_action(percent: Percent, risk_level: i32, is_receiver: bool, below: bool) -> (action: Action)
    ensures
        action == action_for(percent@, risk_level as int, is_receiver, below),
{
    if percent.millis < DEADBAND_MILLI_PERCENT {
        Action::Stable
    } else if risk_level > RISK_LIMIT {
        Action::HighRiskNoAction
    } else if is_receiver == below {
        Action::CheckOnly
    } else {
        Action::Pay
    }
}

/// The deviation is never negative, and an excess counts as much as a
/// shortfall of the same size.
pub proof fn lemma_percent_is_symmetric(dollars_from_par: int, expected: int)
    requires
        expected != 0,
    ensures
        percent_millis(dollars_from_par, expected) >= 0,
        percent_millis(-dollars_from_par, expected) == percent_millis(dollars_from_par, expected),
{
}

/// Rounding the share down does not move the deadband: the share is below
/// 0.1 % exactly when a thousand times the deviation is less than the peg.
pub proof fn lemma_deadband_is_exact(dollars_from_par: int, expected: int)
    requires
        expected != 0,
    ensures
        percent_millis(dollars_from_par, expected) < DEADBAND_MILLI_PERCENT <==> abs(dollars_from_par)
            * 1000 < abs(expected),
{
    let d = abs(dollars_from_par);
    let e = abs(expected);
    let n = d * 100_000;
    assert(n / e < 100 <==> n < 100 * e) by (nonlinear_arith)
        requires
            e > 0,
            n >= 0,
    ;
}

/// Below the deadband the action is `Stable`, whatever the risk level and
/// whoever is short; from the deadband on it never is.
pub proof fn lemma_deadband(percent: nat, risk_level: int, is_receiver: bool, below: bool)
    ensures
        percent < DEADBAND_MILLI_PERCENT <==> action_for(percent, risk_level, is_receiver, below)
            == Action::Stable,
{
}

/// From the deadband on, a risk level above the limit forbids every payment,
/// whoever is short.
pub proof fn lemma_risk_override(percent: nat, risk_level: int, is_receiver: bool, below: bool)
    requires
        percent >= DEADBAND_MILLI_PERCENT,
        risk_level > RISK_LIMIT,
    ensures
        action_for(percent, risk_level, is_receiver, below) == Action::HighRiskNoAction,
{
}

/// From the deadband on and within the risk limit, the side that would have
/// to be paid only reports: the receiver while short, the provider while the
/// receiver is not.
pub proof fn lemma_wrong_direction_only_checks(
    percent: nat,
    risk_level: int,
    is_receiver: bool,
    below: bool,
)
    requires
        percent >= DEADBAND_MILLI_PERCENT,
        risk_level <= RISK_LIMIT,
        is_receiver == below,
    ensures
        action_for(percent, risk_level, is_receiver, below) == Action::CheckOnly,
{
}

/// From the deadband on and within the risk limit, the side that holds the
/// difference pays it: the receiver while over the peg, the provider while
/// the receiver is short.
pub proof fn lemma_right_direction_pays(percent: nat, risk_level: int, is_receiver: bool, below: bool)
    requires
        percent >= DEADBAND_MILLI_PERCENT,
        risk_level <= RISK_LIMIT,
        is_receiver != below,
    ensures
        action_for(percent, risk_level, is_receiver, below) == Action::Pay,
{
}

} // verus!
