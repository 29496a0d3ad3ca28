//! Normalizing a UTC timestamp string into a localized date for display:
//! parsing, the daylight-saving heuristic, day rollover, and rendering.

use vstd::prelude::*;
use vstd::string::StringExecFns;
use crate::calendar::{month_len, prior_days, month_clamped, weekday_slot};
use crate::digits::{div_trunc, rem_trunc, int_text, div_trunc_i64, rem_trunc_i64, i32_text};
use crate::scan::{scanned_field, scan_fields};
use chrono::Datelike;
use chrono::Timelike;

verus! {

/// The observer's current civil time and raw UTC offset, read once per
/// normalization and used only to pick the offset bucket.
pub struct ObserverNow {
    pub year: i32,
    pub month: i32,
    pub day: i32,
    pub hour: i32,
    pub offset_seconds: i32,
}

impl ObserverNow {
    /// The ranges the clock source guarantees.
    pub open spec fn wf(self) -> bool {
        &&& 1 <= self.month <= 12
        &&& 1 <= self.day <= 31
        &&& 0 <= self.hour <= 23
        &&& -86400 < self.offset_seconds < 86400
        &&& -262145 < self.year < 262145
    }
}

/// Relies on chrono::Local::now and its Datelike/Timelike accessors together
/// with FixedOffset::local_minus_utc: the accessors return a month in 1..=12,
/// a day in 1..=31, an hour in 0..=23, a year chrono bounds well below
/// +-262145, and an offset strictly between -86400 and 86400 seconds.
#[verifier::external_body]
pub fn observer_clock() -> (r: ObserverNow)
    ensures
        r.wf(),
{
    let now = chrono::Local::now();
    ObserverNow {
        year: now.year(),
        month: now.month() as i32,
        day: now.day() as i32,
        hour: now.hour() as i32,
        offset_seconds: now.offset().local_minus_utc(),
    }
}

/// A normalized local timestamp, ready for rendering.
pub struct ISODate {
    pub year: i32,
    pub month: i32,
    pub day: i32,
    pub hour: i32,
    pub minute: i32,
    pub timezone: String,
    pub us: bool,
}

/// The estimated day of March on which daylight-saving time starts, from the
/// closed-form congruence anchored at 1968.
pub open spec fn dst_start(year: int) -> int {
    rem_trunc(2 - div_trunc(5 * (year - 1968), 4), 7) + 8
}

/// Whether the observer's current time falls under the US daylight-saving
/// rule, for raw offsets in the US range only.
pub open spec fn dst_active(now: ObserverNow, offset_hours: int) -> bool {
    let start = dst_start(now.year as int);
    let end = start - 7;
    &&& {
        ||| (now.month > 3 && now.month < 11)
        ||| (now.month == 3 && now.day > start)
        ||| (now.month == 3 && now.day == start && now.hour >= 2)
        ||| (now.month == 11 && now.day < end)
        ||| (now.month == 11 && now.day == end && now.hour < 2)
    }
    &&& -7 <= offset_hours <= -4
}

/// The observer's raw UTC offset in whole hours, rounded toward zero.
pub open spec fn offset_hours(now: ObserverNow) -> int {
    div_trunc(now.offset_seconds as int, 3600)
}

/// The offset bucket applied to the article: the raw offset, moved to the
/// standard-time bucket when daylight-saving currently applies.
pub open spec fn article_offset(now: ObserverNow) -> int {
    let o = offset_hours(now);
    if dst_active(now, o) && -7 <= o <= -4 {
        o - 1
    } else {
        o
    }
}

/// The label of an offset bucket.
pub open spec fn tz_label(off: int) -> Seq<char> {
    if off == -5 {
        "Eastern"@
    } else if off == -6 {
        "Central"@
    } else if off == -7 {
        "Mountain"@
    } else if off == -8 {
        "Pacific"@
    } else if off < 0 {
        "UTC"@ + int_text(off)
    } else if off > 0 {
        "UTC+"@ + int_text(off)
    } else {
        "UTC"@
    }
}

/// One rollover step: the offset added to the hour, the date moved by at most
/// one day. Yields (year, month, day, hour).
pub open spec fn rolled(y: int, mo: int, d: int, h: int, off: int) -> (int, int, int, int) {
    let nh = h + off;
    if nh < 0 {
        if d == 1 {
            if mo == 1 {
                (y - 1, 12, month_len(12, y - 1), nh + 24)
            } else {
                (y, mo - 1, month_len(mo - 1, y), nh + 24)
            }
        } else {
            (y, mo, d - 1, nh + 24)
        }
    } else if nh > 23 {
        if d >= month_len(mo, y) {
            if mo >= 12 {
                (y + 1, 1, 1, nh - 24)
            } else {
                (y, mo + 1, 1, nh - 24)
            }
        } else {
            (y, mo, d + 1, nh - 24)
        }
    } else {
        (y, mo, d, nh)
    }
}

/// The (year, month, day, hour) of the timestamp string after the observer's
/// offset bucket is applied.
pub open spec fn normalized(s: Seq<char>, now: ObserverNow) -> (int, int, int, int) {
    rolled(
        scanned_field(s, 0),
        scanned_field(s, 1),
        scanned_field(s, 2),
        scanned_field(s, 3),
        article_offset(now),
    )
}

/// The parsed fields leave room for the rollover arithmetic of the machine
/// integers.
pub open spec fn can_normalize(s: Seq<char>) -> bool {
    scanned_field(s, 0) < i32::MAX as int && scanned_field(s, 3) <= i32::MAX as int - 24
}

/// The month's display name; months outside 1..=12 have none.
pub open spec fn month_name(m: int) -> Seq<char> {
    if m == 1 {
        "January"@
    } else if m == 2 {
        "February"@
    } else if m == 3 {
        "March"@
    } else if m == 4 {
        "April"@
    } else if m == 5 {
        "May"@
    } else if m == 6 {
        "June"@
    } else if m == 7 {
        "July"@
    } else if m == 8 {
        "August"@
    } else if m == 9 {
        "September"@
    } else if m == 10 {
        "October"@
    } else if m == 11 {
        "November"@
    } else if m == 12 {
        "December"@
    } else {
        "Neveruary"@
    }
}

/// The weekday's display name, from the congruence anchored at 1968.
pub open spec fn weekday_name(m: int, d: int, y: int) -> Seq<char> {
    let wd = weekday_slot(m, d, y);
    if wd == 1 {
        "Monday"@
    } else if wd == 2 {
        "Tuesday"@
    } else if wd == 3 {
        "Wednesday"@
    } else if wd == 4 {
        "Thursday"@
    } else if wd == 5 {
        "Friday"@
    } else if wd == 6 {
        "Saturday"@
    } else if wd == 7 {
        "Sunday"@
    } else {
        "Someday"@
    }
}

/// The clock part of the display string: 12-hour form without leading zero,
/// minutes padded to two digits.
pub open spec fn time_text(h: int, m: int) -> Seq<char> {
    let mm = if m < 10 {
        "0"@ + int_text(m)
    } else {
        int_text(m)
    };
    if h > 12 {
        int_text(h - 12) + ":"@ + mm + " p.m."@
    } else {
        int_text(h) + ":"@ + mm + " a.m."@
    }
}

/// The full display string of a normalized timestamp: month before day in the
/// US style, day before month otherwise.
pub open spec fn rendered(
    year: int,
    month: int,
    day: int,
    hour: int,
    minute: int,
    tz: Seq<char>,
    us: bool,
) -> Seq<char> {
    if us {
        weekday_name(month, day, year) + ", "@ + month_name(month) + " "@ + int_text(day) + ", "@
            + int_text(year) + " - "@ + time_text(hour, minute) + " "@ + tz
    } else {
        weekday_name(month, day, year) + ", "@ + int_text(day) + " "@ + month_name(month) + " "@
            + int_text(year) + " - "@ + time_text(hour, minute) + " "@ + tz
    }
}

/// The display string of a timestamp string normalized against the observer's
/// clock reading.
pub open spec fn date_text(s: Seq<char>, now: ObserverNow) -> Seq<char> {
    let f = normalized(s, now);
    let off = article_offset(now);
    rendered(f.0, f.1, f.2, f.3, scanned_field(s, 4), tz_label(off), -8 <= off <= -5)
}

/// Formatting is a pure function of the normalized fields: two timestamps
/// whose fields agree render as the same string.
pub proof fn lemma_format_pure(a: ISODate, b: ISODate)
    requires
        a.year == b.year,
        a.month == b.month,
        a.day == b.day,
        a.hour == b.hour,
        a.minute == b.minute,
        a.timezone@ == b.timezone@,
        a.us == b.us,
    ensures
        rendered(
            a.year as int,
            a.month as int,
            a.day as int,
            a.hour as int,
            a.minute as int,
            a.timezone@,
            a.us,
        ) == rendered(
            b.year as int,
            b.month as int,
            b.day as int,
            b.hour as int,
            b.minute as int,
            b.timezone@,
            b.us,
        ),
{
}

/// One rollover step is enough: with an in-range hour and an offset of less
/// than a day, the shifted hour lands back in range and the date stays a
/// calendar date.
pub proof fn lemma_rollover_one_step(y: int, mo: int, d: int, h: int, off: int)
    requires
        0 <= h <= 23,
        -23 <= off <= 23,
        1 <= mo <= 12,
        1 <= d <= 31,
    ensures
        0 <= rolled(y, mo, d, h, off).3 <= 23,
        1 <= rolled(y, mo, d, h, off).1 <= 12,
        1 <= rolled(y, mo, d, h, off).2 <= 31,
{
}

impl ISODate {
    /// Parses the timestamp string and shifts it into the offset bucket that
    /// the observer's clock reading selects.
    pub fn new(iso: &str, now: ObserverNow) -> (r: ISODate)
        requires
            now.wf(),
            can_normalize(iso@),
        ensures
            r.year as int == normalized(iso@, now).0,
            r.month as int == normalized(iso@, now).1,
            r.day as int == normalized(iso@, now).2,
            r.hour as int == normalized(iso@, now).3,
            r.minute as int == scanned_field(iso@, 4),
            r.timezone@ == tz_label(article_offset(now)),
            r.us == (-8 <= article_offset(now) <= -5),
    {
        let (year, month, day, hour, minute) = scan_fields(iso);

        let off64: i64 = div_trunc_i64(now.offset_seconds as i64, 3600);
        proof {
            if now.offset_seconds >= 0 {
                vstd::arithmetic::div_mod::lemma_div_is_ordered(
                    now.offset_seconds as int,
                    86399,
                    3600,
                );
                vstd::arithmetic::div_mod::lemma_div_pos_is_pos(now.offset_seconds as int, 3600);
            } else {
                vstd::arithmetic::div_mod::lemma_div_is_ordered(
                    -(now.offset_seconds as int),
                    86399,
                    3600,
                );
                vstd::arithmetic::div_mod::lemma_div_pos_is_pos(-(now.offset_seconds as int), 3600);
            }
            assert(86399int / 3600 == 23);
        }
        let current_offset: i32 = off64 as i32;

        let current_dst: bool = Self::curr_dst(&current_offset, &now);

        let bucket: i32 = if current_dst && current_offset >= -7 && current_offset <= -4 {
            current_offset - 1
        } else {
            current_offset
        };

        let us: bool = bucket >= -8 && bucket <= -5;
        let timezone: String = Self::timezone(bucket);

        let mut iso_date: ISODate = ISODate { year, month, day, hour, minute, timezone, us };
        iso_date.utc_offset(bucket);
        iso_date
    }

    /// Whether the observer currently falls under the US daylight-saving rule.
    pub fn curr_dst(offset: &i32, now: &ObserverNow) -> (r: bool)
        ensures
            r == dst_active(*now, *offset as int),
    {
        let y: i64 = now.year as i64;
        let q: i64 = div_trunc_i64(5 * (y - 1968), 4);
        let start: i64 = rem_trunc_i64(2 - q, 7) + 8;
        let end: i64 = start - 7;

        let month: i64 = now.month as i64;
        let day: i64 = now.day as i64;
        let hour: i64 = now.hour as i64;

        if (month > 3 && month < 11) || (month == 3 && day > start) || (month == 3 && day == start
            && hour >= 2) || (month == 11 && day < end) || (month == 11 && day == end && hour < 2) {
            if *offset >= -7 && *offset <= -4 {
                return true;
            }
        }
        false
    }

    /// The label of an offset bucket: a US zone name for -8..=-5, otherwise a
    /// plain UTC offset.
    pub fn timezone(utc_offset: i32) -> (r: String)
        ensures
            r@ == tz_label(utc_offset as int),
    {
        match utc_offset {
            -5 => "Eastern".to_owned(),
            -6 => "Central".to_owned(),
            -7 => "Mountain".to_owned(),
            -8 => "Pacific".to_owned(),
            _ => {
                if utc_offset < 0 {
                    let mut s = "UTC".to_owned();
                    let t = i32_text(utc_offset);
                    s.append(t.as_str());
                    s
                } else if utc_offset > 0 {
                    let mut s = "UTC+".to_owned();
                    let t = i32_text(utc_offset);
                    s.append(t.as_str());
                    s
                } else {
                    "UTC".to_owned()
                }
            },
        }
    }

    /// Applies the offset to the hour and moves the date by at most one day.
    pub fn utc_offset(&mut self, utc_offset: i32)
        requires
            i32::MIN <= old(self).hour + utc_offset <= i32::MAX,
            old(self).day > i32::MIN,
            old(self).month > i32::MIN,
            i32::MIN < old(self).year < i32::MAX,
        ensures
            final(self).year as int == rolled(
                old(self).year as int,
                old(self).month as int,
                old(self).day as int,
                old(self).hour as int,
                utc_offset as int,
            ).0,
            final(self).month as int == rolled(
                old(self).year as int,
                old(self).month as int,
                old(self).day as int,
                old(self).hour as int,
                utc_offset as int,
            ).1,
            final(self).day as int == rolled(
                old(self).year as int,
                old(self).month as int,
                old(self).day as int,
                old(self).hour as int,
                utc_offset as int,
            ).2,
            final(self).hour as int == rolled(
                old(self).year as int,
                old(self).month as int,
                old(self).day as int,
                old(self).hour as int,
                utc_offset as int,
            ).3,
            final(self).minute == old(self).minute,
            final(self).timezone == old(self).timezone,
            final(self).us == old(self).us,
    {
        let mut hour: i32 = self.hour;
        hour = hour + utc_offset;

        if hour < 0 {
            if self.day == 1 {
                if self.month == 1 {
                    self.month = 12;
                    self.year = self.year - 1;
                } else {
                    self.month = self.month - 1;
                }
                self.day = Self::max_day(&self.month, &self.year);
            } else {
                self.day = self.day - 1;
            }
            hour = hour + 24;
        } else if hour > 23 {
            let limit: i32 = Self::max_day(&self.month, &self.year);
            if self.day >= limit {
                if self.month >= 12 {
                    self.month = 1;
                    self.year = self.year + 1;
                } else {
                    self.month = self.month + 1;
                }
                self.day = 1;
            } else {
                self.day = self.day + 1;
            }
            hour = hour - 24;
        }

        self.hour = hour;
    }

    /// The number of days in a month of a year; months outside 1..=12 count
    /// as 31.
    pub fn max_day(month: &i32, year: &i32) -> (r: i32)
        ensures
            r as int == month_len(*month as int, *year as int),
    {
        if *month == 2 {
            proof {
                if *year < 0 {
                    vstd::arithmetic::div_mod::lemma_fundamental_div_mod(*year as int, 4);
                    vstd::arithmetic::div_mod::lemma_fundamental_div_mod(-(*year as int), 4);
                    vstd::arithmetic::div_mod::lemma_mod_bound(*year as int, 4);
                    vstd::arithmetic::div_mod::lemma_mod_bound(-(*year as int), 4);
                }
            }
            let rem: i64 = rem_trunc_i64(*year as i64, 4);
            if rem == 0 {
                29
            } else {
                28
            }
        } else if *month == 4 || *month == 6 || *month == 9 || *month == 11 {
            30
        } else {
            31
        }
    }

    /// Whether a day number fits within this date's month.
    pub fn day_valid(&self, day: &i32) -> (r: bool)
        ensures
            r == (*day as int <= month_len(self.month as int, self.year as int)),
    {
        let limit: i32 = Self::max_day(&self.month, &self.year);
        *day <= limit
    }

    /// The display name of this date's month.
    pub fn get_month(&self) -> (r: String)
        ensures
            r@ == month_name(self.month as int),
    {
        match self.month {
            1 => "January".to_owned(),
            2 => "February".to_owned(),
            3 => "March".to_owned(),
            4 => "April".to_owned(),
            5 => "May".to_owned(),
            6 => "June".to_owned(),
            7 => "July".to_owned(),
            8 => "August".to_owned(),
            9 => "September".to_owned(),
            10 => "October".to_owned(),
            11 => "November".to_owned(),
            12 => "December".to_owned(),
            _ => "Neveruary".to_owned(),
        }
    }

    /// The display name of this date's weekday, from the day of the year and
    /// the congruence anchored at 1968.
    pub fn get_day(&self) -> (r: String)
        ensures
            r@ == weekday_name(self.month as int, self.day as int, self.year as int),
    {
        let mut day_of_year: i64 = 0;
        let mut index: i32 = 2;
        while index <= self.month && index <= 12
            invariant
                2 <= index <= 13,
                2 <= self.month <= 12 ==> index <= self.month + 1,
                self.month < 2 ==> index == 2,
                0 <= day_of_year <= 31 * (index - 2),
                day_of_year == prior_days((index - 1) as nat, self.year as int),
            decreases 13 - index,
        {
            let pm: i32 = index - 1;
            let ml: i32 = Self::max_day(&pm, &self.year);
            day_of_year = day_of_year + ml as i64;
            index = index + 1;
        }
        proof {
            assert(day_of_year == prior_days(month_clamped(self.month as int), self.year as int));
        }
        let doy: i64 = day_of_year + self.day as i64;

        let fy: i64 = rem_trunc_i64(div_trunc_i64(3 + 5 * (self.year as i64 - 1968), 4), 7) + 1;
        let wd: i64 = rem_trunc_i64(fy + doy - 2, 7) + 1;

        match wd {
            1 => "Monday".to_owned(),
            2 => "Tuesday".to_owned(),
            3 => "Wednesday".to_owned(),
            4 => "Thursday".to_owned(),
            5 => "Friday".to_owned(),
            6 => "Saturday".to_owned(),
            7 => "Sunday".to_owned(),
            _ => "Someday".to_owned(),
        }
    }

    /// The clock part of the display string.
    pub fn get_time(&self) -> (r: String)
        ensures
            r@ == time_text(self.hour as int, self.minute as int),
    {
        let minute_str: String = if self.minute < 10 {
            let mut p = "0".to_owned();
            let t = i32_text(self.minute);
            p.append(t.as_str());
            p
        } else {
            i32_text(self.minute)
        };

        let mut r: String;
        if self.hour > 12 {
            r = i32_text(self.hour - 12);
            r.append(":");
            r.append(minute_str.as_str());
            r.append(" p.m.");
        } else {
            r = i32_text(self.hour);
            r.append(":");
            r.append(minute_str.as_str());
            r.append(" a.m.");
        }
        proof {
            assert(r@ =~= time_text(self.hour as int, self.minute as int));
        }
        r
    }

    /// The full display string of this timestamp.
    pub fn to_string(&self) -> (r: String)
        ensures
            r@ == rendered(
                self.year as int,
                self.month as int,
                self.day as int,
                self.hour as int,
                self.minute as int,
                self.timezone@,
                self.us,
            ),
    {
        let mut r: String = self.get_day();
        r.append(", ");
        if self.us {
            let mon = self.get_month();
            r.append(mon.as_str());
            r.append(" ");
            let d = i32_text(self.day);
            r.append(d.as_str());
            r.append(", ");
        } else {
            let d = i32_text(self.day);
            r.append(d.as_str());
            r.append(" ");
            let mon = self.get_month();
            r.append(mon.as_str());
            r.append(" ");
        }
        let y = i32_text(self.year);
        r.append(y.as_str());
        r.append(" - ");
        let t = self.get_time();
        r.append(t.as_str());
        r.append(" ");
        r.append(self.timezone.as_str());
        proof {
            assert(r@ =~= rendered(
                self.year as int,
                self.month as int,
                self.day as int,
                self.hour as int,
                self.minute as int,
                self.timezone@,
                self.us,
            ));
        }
        r
    }
}

} // verus!
