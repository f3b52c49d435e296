//! The alert engine: decides whether a battery reading warrants an alert and
//! composes the alert's message text.

use vstd::prelude::*;

verus! {

/// Which way the battery's charge is moving, as reported by the host's power
/// subsystem.
#[derive(Clone, Copy, Debug, PartialEq, Eq, Structural)]
pub enum ChargeDirection {
    Charging,
    Discharging,
    Full,
    Unknown,
    Empty,
}

/// A full battery, in basis points of charge (hundredths of a percent).
pub const FULL_SCALE: u16 = 10000;

/// Largest charge, in basis points, that still alerts while discharging (40%).
pub const LOW_ALERT_MAX: u16 = 4000;

/// Smallest charge, in basis points, that alerts while charging (80%).
pub const HIGH_ALERT_MIN: u16 = 8000;

/// A charge fraction is a number of basis points on the scale from empty to
/// full, so it must not exceed the scale.
pub open spec fn fraction_valid(fraction: int) -> bool {
    0 <= fraction <= FULL_SCALE as int
}

/// The decision rule: alert exactly when the battery is at or below 40% and
/// draining, or at or above 80% and filling. Both thresholds are inclusive,
/// and no other direction (Full, Unknown, Empty) ever alerts.
pub open spec fn should_alert(fraction: int, direction: ChargeDirection) -> bool {
    ||| (fraction <= LOW_ALERT_MAX as int && direction == ChargeDirection::Discharging)
    ||| (fraction >= HIGH_ALERT_MIN as int && direction == ChargeDirection::Charging)
}

/// One battery reading: the charge fraction in basis points and the charge
/// direction. Produced fresh each poll cycle and discarded after the cycle.
#[derive(Clone, Copy, Debug, PartialEq, Eq, Structural)]
pub struct ChargeReading {
    pub fraction: u16,
    pub direction: ChargeDirection,
}

impl ChargeReading {
    /// The fraction lies on the basis-point scale.
    pub open spec fn valid(self) -> bool {
        fraction_valid(self.fraction as int)
    }

    /// Applies the decision rule to this reading.
    pub fn decide(&self) -> (r: bool)
        requires
            self.valid(),
        ensures
            r == should_alert(self.fraction as int, self.direction),
    {
        popup_decision(self.fraction, self.direction)
    }
}

impl Default for ChargeReading {
    /// The reading a host reports when it finds no battery at all: an empty
    /// charge in an unknown direction, which never alerts.
    fn default() -> (r: Self)
        ensures
            r.fraction == 0,
            r.direction == ChargeDirection::Unknown,
            r.valid(),
    {
        ChargeReading { fraction: 0, direction: ChargeDirection::Unknown }
    }
}

/// Decides whether a reading warrants a popup: `true` exactly on the alert
/// conditions of `should_alert`.
pub fn popup_decision(fraction: u16, direction: ChargeDirection) -> (r: bool)
    requires
        fraction_valid(fraction as int),
    ensures
        r == should_alert(fraction as int, direction),
{
    if fraction <= LOW_ALERT_MAX && direction == ChargeDirection::Discharging {
        true
    } else if fraction >= HIGH_ALERT_MIN && direction == ChargeDirection::Charging {
        true
    } else {
        false
    }
}

/// The decimal digit `d` as a character, for `d` between 0 and 9.
pub open spec fn digit_char(d: int) -> char {
    if d == 0 {
        '0'
    } else if d == 1 {
        '1'
    } else if d == 2 {
        '2'
    } else if d == 3 {
        '3'
    } else if d == 4 {
        '4'
    } else if d == 5 {
        '5'
    } else if d == 6 {
        '6'
    } else if d == 7 {
        '7'
    } else if d == 8 {
        '8'
    } else {
        '9'
    }
}

/// The decimal digits of a whole percentage, which is at most 100: one, two
/// or three characters with no leading zero.
pub open spec fn percent_digits(p: int) -> Seq<char>
    recommends
        0 <= p <= 100,
{
    if p < 10 {
        seq![digit_char(p)]
    } else if p < 100 {
        seq![digit_char(p / 10), digit_char(p % 10)]
    } else {
        seq!['1', '0', '0']
    }
}

/// The message shown when the battery is low and draining.
pub open spec fn low_alert_text(fraction: int) -> Seq<char> {
    "Battery at "@ + percent_digits(rounded_percent(fraction)) + "% - plug in charger"@
}

/// The message shown when the battery is high and filling.
pub open spec fn high_alert_text(fraction: int) -> Seq<char> {
    "Battery at "@ + percent_digits(rounded_percent(fraction)) + "% - take out charger"@
}

/// The text of the alert a reading warrants; meaningful on the readings for
/// which `should_alert` holds. The low rule is checked first, as in
/// `should_alert` a reading cannot satisfy both.
pub open spec fn alert_text(fraction: int, direction: ChargeDirection) -> Seq<char> {
    if fraction <= LOW_ALERT_MAX as int && direction == ChargeDirection::Discharging {
        low_alert_text(fraction)
    } else {
        high_alert_text(fraction)
    }
}

/// Law: a battery at or below the low threshold that is discharging always
/// alerts.
pub proof fn lemma_low_discharging_alerts(fraction: int)
    requires
        fraction_valid(fraction),
        fraction <= LOW_ALERT_MAX as int,
    ensures
        should_alert(fraction, ChargeDirection::Discharging),
{
}

/// Law: a battery at or above the high threshold that is charging always
/// alerts.
pub proof fn lemma_high_charging_alerts(fraction: int)
    requires
        fraction_valid(fraction),
        fraction >= HIGH_ALERT_MIN as int,
    ensures
        should_alert(fraction, ChargeDirection::Charging),
{
}

/// Law: every other reading is quiet — a discharging battery above the low
/// threshold, a charging battery below the high threshold, and a battery in
/// any other direction at any charge, never alert.
pub proof fn lemma_otherwise_quiet(fraction: int, direction: ChargeDirection)
    requires
        fraction_valid(fraction),
        direction == ChargeDirection::Discharging ==> fraction > LOW_ALERT_MAX as int,
        direction == ChargeDirection::Charging ==> fraction < HIGH_ALERT_MIN as int,
    ensures
        !should_alert(fraction, direction),
{
}

/// Law: deciding is idempotent. The decision and the message text are
/// functions of the reading alone, so two results that each meet the
/// contracts of `popup_decision` and `alert_message` on identical inputs are
/// identical.
pub proof fn lemma_decision_idempotent(
    fraction: int,
    direction: ChargeDirection,
    first: bool,
    second: bool,
    first_text: Seq<char>,
    second_text: Seq<char>,
)
    requires
        first == should_alert(fraction, direction),
        second == should_alert(fraction, direction),
        first_text == alert_text(fraction, direction),
        second_text == alert_text(fraction, direction),
    ensures
        first == second,
        first_text == second_text,
{
}

/// The charge as a whole percentage, rounded to the nearest integer with
/// halves rounded up. On the basis-point scale a half percent is exact, and
/// rounding it up is rounding away from zero, since charge is never negative.
pub open spec fn rounded_percent(fraction: int) -> int {
    (fraction + 50) / 100
}

/// Computes the rounded whole percentage of a charge fraction.
pub fn rounded_percent_of(fraction: u16) -> (p: u16)
    requires
        fraction_valid(fraction as int),
    ensures
        p as int == rounded_percent(fraction as int),
        p <= 100,
{
    (fraction + 50) / 100
}

/// The decimal digit `d` as a one-character string slice.
fn digit_str(d: u16) -> (r: &'static str)
    requires
        d <= 9,
    ensures
        r@ == seq![digit_char(d as int)],
{
    match d {
        0 => {
            proof {
                reveal_strlit("0");
                assert("0"@ =~= seq![digit_char(0)]);
            }
            "0"
        },
        1 => {
            proof {
                reveal_strlit("1");
                assert("1"@ =~= seq![digit_char(1)]);
            }
            "1"
        },
        2 => {
            proof {
                reveal_strlit("2");
                assert("2"@ =~= seq![digit_char(2)]);
            }
            "2"
        },
        3 => {
            proof {
                reveal_strlit("3");
                assert("3"@ =~= seq![digit_char(3)]);
            }
            "3"
        },
        4 => {
            proof {
                reveal_strlit("4");
                assert("4"@ =~= seq![digit_char(4)]);
            }
            "4"
        },
        5 => {
            proof {
                reveal_strlit("5");
                assert("5"@ =~= seq![digit_char(5)]);
            }
            "5"
        },
        6 => {
            proof {
                reveal_strlit("6");
                assert("6"@ =~= seq![digit_char(6)]);
            }
            "6"
        },
        7 => {
            proof {
                reveal_strlit("7");
                assert("7"@ =~= seq![digit_char(7)]);
            }
            "7"
        },
        8 => {
            proof {
                reveal_strlit("8");
                assert("8"@ =~= seq![digit_char(8)]);
            }
            "8"
        },
        _ => {
            proof {
                reveal_strlit("9");
                assert("9"@ =~= seq![digit_char(9)]);
            }
            "9"
        },
    }
}

/// Appends the decimal digits of a whole percentage to `s`.
fn push_percent(s: &mut String, p: u16)
    requires
        p <= 100,
    ensures
        final(s)@ == old(s)@ + percent_digits(p as int),
{
    if p < 10 {
        s.append(digit_str(p));
    } else if p < 100 {
        s.append(digit_str(p / 10));
        s.append(digit_str(p % 10));
        proof {
            assert(old(s)@ + seq![digit_char(p as int / 10)] + seq![digit_char(p as int % 10)]
                =~= old(s)@ + percent_digits(p as int));
        }
    } else {
        s.append("100");
        proof {
            reveal_strlit("100");
            assert("100"@ =~= percent_digits(p as int));
        }
    }
}

/// Builds an alert message: the rounded percentage between the fixed prefix
/// and the given advice.
fn build_message(fraction: u16, advice: &str) -> (r: String)
    requires
        fraction_valid(fraction as int),
    ensures
        r@ == "Battery at "@ + percent_digits(rounded_percent(fraction as int)) + advice@,
{
    let mut s = String::from_str("Battery at ");
    push_percent(&mut s, rounded_percent_of(fraction));
    s.append(advice);
    s
}

/// Applies the decision rule and, when it alerts, composes the message the
/// popup should show: the charge as a rounded percentage and what to do with
/// the charger. Returns a message exactly when `popup_decision` returns
/// `true`.
pub fn alert_message(fraction: u16, direction: ChargeDirection) -> (r: Option<String>)
    requires
        fraction_valid(fraction as int),
    ensures
        r is Some <==> should_alert(fraction as int, direction),
        (match r {
            Some(m) => m@ == alert_text(fraction as int, direction),
            None => true,
        }),
{
    if fraction <= LOW_ALERT_MAX && direction == ChargeDirection::Discharging {
        Some(build_message(fraction, "% - plug in charger"))
    } else if fraction >= HIGH_ALERT_MIN && direction == ChargeDirection::Charging {
        Some(build_message(fraction, "% - take out charger"))
    } else {
        None
    }
}

} // verus!
