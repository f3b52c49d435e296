//! Battery charge monitoring logic.
//!
//! A host program polls the machine's battery, hands the reading to this
//! library, and shows the alert text the library produces. Everything that
//! decides — whether a reading warrants an alert, what the alert says, and
//! how long to wait before the next poll — lives here, verified. Reading the
//! hardware and rendering the popup are platform work and stay outside.
//!
//! A charge fraction is carried as a whole number of basis points
//! (hundredths of a percent), so a full battery is `10000` and the alert
//! thresholds of 40% and 80% are `4000` and `8000` exactly.

mod cadence;
mod engine;

pub use cadence::{sleep_duration, sleep_secs, ALERT_SLEEP_SECS, IDLE_SLEEP_SECS};
pub use engine::{
    alert_message, alert_text, digit_char, fraction_valid, high_alert_text,
    lemma_decision_idempotent, lemma_high_charging_alerts, lemma_low_discharging_alerts,
    lemma_otherwise_quiet, low_alert_text, percent_digits, popup_decision, rounded_percent,
    rounded_percent_of, should_alert, ChargeDirection, ChargeReading, FULL_SCALE, HIGH_ALERT_MIN,
    LOW_ALERT_MAX,
};
