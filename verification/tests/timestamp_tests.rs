use newsapi::{ISODate, ObserverNow};

/// An observer in early December: no daylight-saving by any reading of the
/// rule.
fn winter(offset_hours: i32) -> ObserverNow {
    ObserverNow {
        year: 2023,
        month: 12,
        day: 5,
        hour: 12,
        offset_seconds: offset_hours * 3600,
    }
}

/// An observer in July: under daylight-saving whenever the offset is in the
/// US range.
fn summer(offset_hours: i32) -> ObserverNow {
    ObserverNow {
        year: 2024,
        month: 7,
        day: 15,
        hour: 12,
        offset_seconds: offset_hours * 3600,
    }
}

#[test]
fn parse_assigns_first_five_digit_runs() {
    let d = ISODate::new("2024-03-10T09:30:00Z", winter(0));
    assert_eq!(d.year, 2024);
    assert_eq!(d.month, 3);
    assert_eq!(d.day, 10);
    assert_eq!(d.hour, 9);
    assert_eq!(d.minute, 30);
}

#[test]
fn eastern_winter_is_standard_time() {
    let d = ISODate::new("2024-03-10T09:30:00Z", winter(-5));
    assert_eq!(d.hour, 4);
    assert_eq!(d.minute, 30);
    assert_eq!(d.timezone, "Eastern");
    assert!(d.us);
    assert_eq!(d.to_string(), "Sunday, March 10, 2024 - 4:30 a.m. Eastern");
}

#[test]
fn eastern_summer_moves_to_standard_bucket() {
    // under daylight-saving the raw -4 bucket maps to Eastern standard -5
    let d = ISODate::new("2024-03-10T09:30:00Z", summer(-4));
    assert_eq!(d.timezone, "Eastern");
    assert_eq!(d.hour, 4);
}

#[test]
fn year_rolls_forward_at_new_year() {
    let d = ISODate::new("2023-12-31T23:45:00Z", winter(5));
    assert_eq!((d.year, d.month, d.day, d.hour, d.minute), (2024, 1, 1, 4, 45));
    assert_eq!(d.to_string(), "Monday, 1 January 2024 - 4:45 a.m. UTC+5");
}

#[test]
fn new_year_eve_stays_put_for_eastern() {
    // a negative offset moves the clock back, so the date does not roll
    let d = ISODate::new("2023-12-31T23:45:00Z", winter(-5));
    assert_eq!((d.year, d.month, d.day, d.hour, d.minute), (2023, 12, 31, 18, 45));
    assert_eq!(d.to_string(), "Sunday, December 31, 2023 - 6:45 p.m. Eastern");
}

#[test]
fn year_rolls_back_at_new_year() {
    let d = ISODate::new("2024-01-01T01:05:00Z", winter(-5));
    assert_eq!((d.year, d.month, d.day, d.hour, d.minute), (2023, 12, 31, 20, 5));
}

#[test]
fn leap_day_rolls_forward_to_march() {
    let d = ISODate::new("2024-02-29T23:00:00Z", winter(3));
    assert_eq!((d.year, d.month, d.day, d.hour, d.minute), (2024, 3, 1, 2, 0));
    assert_eq!(d.to_string(), "Friday, 1 March 2024 - 2:00 a.m. UTC+3");
}

#[test]
fn leap_day_stays_put_for_negative_offset() {
    let d = ISODate::new("2024-02-29T23:00:00Z", winter(-3));
    assert_eq!((d.year, d.month, d.day, d.hour, d.minute), (2024, 2, 29, 20, 0));
    assert_eq!(d.to_string(), "Thursday, 29 February 2024 - 8:00 p.m. UTC-3");
}

#[test]
fn non_leap_february_rolls_on_the_28th() {
    let d = ISODate::new("2023-02-28T23:00:00Z", winter(2));
    assert_eq!((d.year, d.month, d.day), (2023, 3, 1));
}

#[test]
fn month_rolls_back_to_leap_february() {
    let d = ISODate::new("2024-03-01T01:00:00Z", winter(-4));
    assert_eq!((d.year, d.month, d.day, d.hour), (2024, 2, 29, 21));
}

#[test]
fn formatting_is_idempotent() {
    let d = ISODate::new("2024-03-10T09:30:00Z", winter(-5));
    let once = d.to_string();
    let twice = d.to_string();
    assert_eq!(once, twice);
    let again = ISODate::new("2024-03-10T09:30:00Z", winter(-5));
    assert_eq!(once, again.to_string());
}

#[test]
fn timezone_labels() {
    assert_eq!(ISODate::timezone(-5), "Eastern");
    assert_eq!(ISODate::timezone(-6), "Central");
    assert_eq!(ISODate::timezone(-7), "Mountain");
    assert_eq!(ISODate::timezone(-8), "Pacific");
    assert_eq!(ISODate::timezone(-3), "UTC-3");
    assert_eq!(ISODate::timezone(0), "UTC");
    assert_eq!(ISODate::timezone(3), "UTC+3");
    assert_eq!(ISODate::timezone(11), "UTC+11");
}

#[test]
fn max_day_table() {
    let years_and_months: [(i32, i32, i32); 7] = [
        (2024, 1, 31),
        (2024, 2, 29),
        (2023, 2, 28),
        (2024, 4, 30),
        (2024, 9, 30),
        (2024, 12, 31),
        (2024, 13, 31),
    ];
    for (year, month, expected) in years_and_months {
        assert_eq!(ISODate::max_day(&month, &year), expected);
    }
}

#[test]
fn century_years_count_as_leap() {
    // the rule divides by four only, so 1900 and 2100 count as leap years
    assert_eq!(ISODate::max_day(&2, &1900), 29);
    assert_eq!(ISODate::max_day(&2, &2100), 29);
}

#[test]
fn day_valid_respects_month_length() {
    let d = ISODate::new("2024-02-10T09:30:00Z", winter(0));
    assert!(d.day_valid(&29));
    assert!(!d.day_valid(&30));
}

#[test]
fn month_names() {
    let d = ISODate::new("2024-05-10T09:30:00Z", winter(0));
    assert_eq!(d.get_month(), "May");
    let d = ISODate::new("2024-00-10T09:30:00Z", winter(0));
    assert_eq!(d.get_month(), "Neveruary");
}

#[test]
fn weekday_names() {
    let d = ISODate::new("2024-03-10T09:30:00Z", winter(0));
    assert_eq!(d.get_day(), "Sunday");
    let d = ISODate::new("2024-03-11T09:30:00Z", winter(0));
    assert_eq!(d.get_day(), "Monday");
    let d = ISODate::new("1968-01-01T09:30:00Z", winter(0));
    assert_eq!(d.get_day(), "Monday");
}

#[test]
fn twelve_hour_clock() {
    let d = ISODate::new("2024-03-10T00:05:00Z", winter(0));
    assert_eq!(d.get_time(), "0:05 a.m.");
    let d = ISODate::new("2024-03-10T12:30:00Z", winter(0));
    assert_eq!(d.get_time(), "12:30 a.m.");
    let d = ISODate::new("2024-03-10T13:30:00Z", winter(0));
    assert_eq!(d.get_time(), "1:30 p.m.");
    let d = ISODate::new("2024-03-10T23:09:00Z", winter(0));
    assert_eq!(d.get_time(), "11:09 p.m.");
}

#[test]
fn dst_rule_boundaries() {
    // the congruence puts the rule's start at March 3 in this year
    let at = |month: i32, day: i32, hour: i32| ObserverNow {
        year: 2024,
        month,
        day,
        hour,
        offset_seconds: -5 * 3600,
    };
    assert!(ISODate::curr_dst(&-5, &at(7, 15, 12)));
    assert!(ISODate::curr_dst(&-5, &at(3, 3, 2)));
    assert!(!ISODate::curr_dst(&-5, &at(3, 3, 1)));
    assert!(!ISODate::curr_dst(&-5, &at(3, 2, 23)));
    assert!(!ISODate::curr_dst(&-5, &at(12, 5, 12)));
    // the rule only ever applies to the US offsets
    assert!(!ISODate::curr_dst(&0, &at(7, 15, 12)));
    assert!(!ISODate::curr_dst(&-9, &at(7, 15, 12)));
}

#[test]
fn utc_offset_applies_one_step() {
    let mut d = ISODate::new("2024-06-15T10:00:00Z", winter(0));
    d.utc_offset(-11);
    assert_eq!((d.month, d.day, d.hour), (6, 14, 23));
}
