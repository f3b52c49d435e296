use battery_notification::{
    alert_message, popup_decision, rounded_percent_of, sleep_secs, ChargeDirection, ChargeReading,
};

#[test]
fn no_popup_charging() {
    assert_eq!(false, popup_decision(1000, ChargeDirection::Charging));
    assert_eq!(false, popup_decision(5000, ChargeDirection::Charging));
}

#[test]
fn no_popup_discharging() {
    assert_eq!(false, popup_decision(9000, ChargeDirection::Discharging));
    assert_eq!(false, popup_decision(5000, ChargeDirection::Discharging));
}

#[test]
fn popup_discharging() {
    assert_eq!(true, popup_decision(3800, ChargeDirection::Discharging));
}

#[test]
fn popup_charging() {
    assert_eq!(true, popup_decision(8800, ChargeDirection::Charging));
}

#[test]
fn low_alert_message_exact() {
    assert_eq!(true, popup_decision(3000, ChargeDirection::Discharging));
    let message = alert_message(3000, ChargeDirection::Discharging).unwrap();
    assert!(message.contains("30%"));
    assert_eq!(message, "Battery at 30% - plug in charger");
}

#[test]
fn high_alert_message_exact() {
    assert_eq!(true, popup_decision(9000, ChargeDirection::Charging));
    let message = alert_message(9000, ChargeDirection::Charging).unwrap();
    assert!(message.contains("90%"));
    assert_eq!(message, "Battery at 90% - take out charger");
}

#[test]
fn quiet_combinations_give_no_message() {
    assert_eq!(false, popup_decision(5500, ChargeDirection::Discharging));
    assert_eq!(None, alert_message(5500, ChargeDirection::Discharging));
    assert_eq!(false, popup_decision(1000, ChargeDirection::Charging));
    assert_eq!(None, alert_message(1000, ChargeDirection::Charging));
    assert_eq!(false, popup_decision(9000, ChargeDirection::Discharging));
    assert_eq!(None, alert_message(9000, ChargeDirection::Discharging));
}

#[test]
fn other_directions_never_alert() {
    for fraction in [0u16, 3000, 4000, 5500, 8000, 10000] {
        for direction in [
            ChargeDirection::Full,
            ChargeDirection::Unknown,
            ChargeDirection::Empty,
        ] {
            assert_eq!(false, popup_decision(fraction, direction));
            assert_eq!(None, alert_message(fraction, direction));
        }
    }
}

#[test]
fn boundaries_are_inclusive() {
    assert_eq!(true, popup_decision(4000, ChargeDirection::Discharging));
    assert_eq!(true, popup_decision(8000, ChargeDirection::Charging));
    assert_eq!(false, popup_decision(4001, ChargeDirection::Discharging));
    assert_eq!(false, popup_decision(7999, ChargeDirection::Charging));
    let low = alert_message(4000, ChargeDirection::Discharging).unwrap();
    assert!(low.contains("40%"));
    let high = alert_message(8000, ChargeDirection::Charging).unwrap();
    assert!(high.contains("80%"));
}

#[test]
fn extreme_charges_alert_with_extreme_percentages() {
    let empty = alert_message(0, ChargeDirection::Discharging).unwrap();
    assert_eq!(empty, "Battery at 0% - plug in charger");
    let full = alert_message(10000, ChargeDirection::Charging).unwrap();
    assert_eq!(full, "Battery at 100% - take out charger");
}

#[test]
fn single_digit_percentage_in_message() {
    let message = alert_message(500, ChargeDirection::Discharging).unwrap();
    assert_eq!(message, "Battery at 5% - plug in charger");
}

#[test]
fn percentage_rounds_half_away_from_zero() {
    assert_eq!(0, rounded_percent_of(0));
    assert_eq!(0, rounded_percent_of(49));
    assert_eq!(1, rounded_percent_of(50));
    assert_eq!(38, rounded_percent_of(3849));
    assert_eq!(39, rounded_percent_of(3850));
    assert_eq!(99, rounded_percent_of(9949));
    assert_eq!(100, rounded_percent_of(9950));
    assert_eq!(100, rounded_percent_of(10000));
}

#[test]
fn rounded_percentage_appears_in_message() {
    let message = alert_message(3849, ChargeDirection::Discharging).unwrap();
    assert_eq!(message, "Battery at 38% - plug in charger");
    let message = alert_message(3850, ChargeDirection::Discharging).unwrap();
    assert_eq!(message, "Battery at 39% - plug in charger");
}

#[test]
fn deciding_twice_gives_identical_results() {
    for fraction in [0u16, 3800, 4000, 5500, 8000, 8800, 10000] {
        for direction in [
            ChargeDirection::Charging,
            ChargeDirection::Discharging,
            ChargeDirection::Full,
            ChargeDirection::Unknown,
            ChargeDirection::Empty,
        ] {
            let first = popup_decision(fraction, direction);
            let second = popup_decision(fraction, direction);
            assert_eq!(first, second);
            let first_message = alert_message(fraction, direction);
            let second_message = alert_message(fraction, direction);
            assert_eq!(first_message, second_message);
        }
    }
}

#[test]
fn sleep_is_short_after_alert_and_long_otherwise() {
    assert_eq!(2, sleep_secs(true));
    assert_eq!(120, sleep_secs(false));
    assert_eq!(60 * sleep_secs(true), sleep_secs(false));
}

#[test]
fn reading_decides_like_the_engine() {
    let reading = ChargeReading {
        fraction: 3800,
        direction: ChargeDirection::Discharging,
    };
    assert_eq!(true, reading.decide());
    let reading = ChargeReading {
        fraction: 9000,
        direction: ChargeDirection::Discharging,
    };
    assert_eq!(false, reading.decide());
}

#[test]
fn missing_battery_reads_as_empty_unknown_and_never_alerts() {
    let reading = ChargeReading::default();
    assert_eq!(0, reading.fraction);
    assert_eq!(ChargeDirection::Unknown, reading.direction);
    assert_eq!(false, reading.decide());
    assert_eq!(None, alert_message(reading.fraction, reading.direction));
}
