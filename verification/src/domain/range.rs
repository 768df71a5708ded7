//! Calendar ranges used to filter completed tasks for presentation and reports.
//!
//! Membership is determined from each task's end timestamp in the local time
//! zone, relative to a supplied reference timestamp.

use crate::domain::task::{Task, TaskView};
use crate::domain::time::now;
use chrono::{Datelike, Local, TimeZone, Timelike};
use vstd::prelude::*;

verus! {

/// A calendar period relative to a reference timestamp in the local time zone.
#[derive(Clone, Copy, Debug, PartialEq, Eq, Structural)]
pub enum Range {
    Day,
    Week,
    Month,
    Year,
}

/// The calendar fields of a moment in the local time zone.
#[derive(Clone, Copy, Debug, PartialEq, Eq, Structural)]
pub struct LocalDate {
    pub year: i32,
    /// 1 to 12.
    pub month: u32,
    /// 1 to 31.
    pub day: u32,
    /// The year that the ISO week belongs to.
    pub iso_year: i32,
    /// 1 to 53.
    pub iso_week: u32,
    /// Days since Monday, 0 to 6.
    pub weekday: u32,
    /// 0 to 23.
    pub hour: u32,
    /// 0 to 59.
    pub minute: u32,
}

/// The ranges that chrono documents for each calendar field.
pub open spec fn date_fields_valid(d: LocalDate) -> bool {
    &&& 1 <= d.month <= 12
    &&& 1 <= d.day <= 31
    &&& 1 <= d.iso_week <= 53
    &&& d.weekday < 7
    &&& d.hour < 24
    &&& d.minute < 60
}

/// Whether `item` falls in the same `range` as `current`: the same day, the
/// same ISO week, the same month of the same year, or the same year.
pub open spec fn same_period(range: Range, current: LocalDate, item: LocalDate) -> bool {
    match range {
        Range::Day => current.year == item.year && current.month == item.month && current.day
            == item.day,
        Range::Week => current.iso_year == item.iso_year && current.iso_week == item.iso_week,
        Range::Month => current.year == item.year && current.month == item.month,
        Range::Year => current.year == item.year,
    }
}

/// The number of days from 1970-01-01 to a date of the proleptic Gregorian
/// calendar (negative before it).
pub open spec fn days_from_civil(year: int, month: int, day: int) -> int {
    let y = if month <= 2 {
        year - 1
    } else {
        year
    };
    let era = y / 400;
    let year_of_era = y - era * 400;
    let shifted_month = if month > 2 {
        month - 3
    } else {
        month + 9
    };
    let day_of_year = (153 * shifted_month + 2) / 5 + day - 1;
    let day_of_era = year_of_era * 365 + year_of_era / 4 - year_of_era / 100 + day_of_year;
    era * 146097 + day_of_era - 719468
}

/// Timestamps, in seconds around 1970, of moments within about 253,000
/// years, whose local dates chrono always represents.
pub open spec fn representable(timestamp: int) -> bool {
    -8_000_000_000_000 <= timestamp <= 8_000_000_000_000
}

/// `date` is the calendar date of `timestamp` under some offset from UTC of
/// less than a day: its day number is that of the UTC day of a moment at
/// most 86,399 seconds away.
pub open spec fn date_near(timestamp: int, date: LocalDate) -> bool {
    (timestamp - 86_399) / 86_400 <= days_from_civil(date.year as int, date.month as int, date.day as int)
        <= (timestamp + 86_399) / 86_400
}

/// `current` and `ended` are local dates as they can be for `timestamp` and
/// for the end of each task: each within a day of its UTC date.
pub open spec fn dates_near(timestamp: i64, current: LocalDate, tasks: Seq<TaskView>, ended: Seq<LocalDate>) -> bool {
    &&& ended.len() == tasks.len()
    &&& representable(timestamp as int) ==> date_near(timestamp as int, current)
    &&& forall|k: int|
        0 <= k < ended.len() && representable(tasks[k].ended as int) ==> date_near(
            tasks[k].ended as int,
            #[trigger] ended[k],
        )
}

/// `Local.timestamp_opt(timestamp, 0).single()` from chrono, taken apart into
/// calendar fields. chrono gives a single local time for every timestamp that
/// `DateTime::from_timestamp` represents (which includes every
/// `representable` one), under the local `FixedOffset`, which is always less
/// than a day; so the date is within a day of the UTC date. Which offset
/// applies depends on the machine's time zone and is not stated.
#[verifier::external_body]
fn local_date_at(timestamp: i64) -> (r: Option<LocalDate>)
    ensures
        r matches Some(d) ==> date_fields_valid(d),
        r matches Some(d) ==> (representable(timestamp as int) ==> iso_consistent(d)),
        representable(timestamp as int) ==> r is Some,
        r matches Some(d) ==> (representable(timestamp as int) ==> date_near(timestamp as int, d)),
{
    match Local.timestamp_opt(timestamp, 0).single() {
        Some(dt) => Some(LocalDate {
            year: dt.year(),
            month: dt.month(),
            day: dt.day(),
            iso_year: dt.iso_week().year(),
            iso_week: dt.iso_week().week(),
            weekday: dt.weekday().num_days_from_monday(),
            hour: dt.hour(),
            minute: dt.minute(),
        }),
        None => None,
    }
}

/// The local calendar date of `timestamp`; a timestamp that chrono cannot
/// represent falls back to the current local time, and the Unix epoch stands
/// in when even that cannot be represented.
pub fn local_date(timestamp: i64) -> (r: LocalDate)
    ensures
        date_fields_valid(r),
        representable(timestamp as int) ==> iso_consistent(r),
        representable(timestamp as int) ==> date_near(timestamp as int, r),
{
    match local_date_at(timestamp) {
        Some(date) => date,
        None => match local_date_at(now()) {
            Some(date) => date,
            None => LocalDate {
                year: 1970,
                month: 1,
                day: 1,
                iso_year: 1970,
                iso_week: 1,
                weekday: 3,
                hour: 0,
                minute: 0,
            },
        },
    }
}

/// Whether `item` lies in the `range` that contains `current`.
pub fn in_period(range: Range, current: LocalDate, item: LocalDate) -> (r: bool)
    ensures
        r == same_period(range, current, item),
{
    match range {
        Range::Day => current.year == item.year && current.month == item.month && current.day
            == item.day,
        Range::Week => current.iso_year == item.iso_year && current.iso_week == item.iso_week,
        Range::Month => current.year == item.year && current.month == item.month,
        Range::Year => current.year == item.year,
    }
}

/// Returns whether the task ended within `range` containing `timestamp`.
///
/// Invalid timestamps fall back to the current local time, matching report
/// date formatting. Which dates the two timestamps fall on depends on the
/// machine's time zone; each lies within a day of its UTC date, and
/// `in_period` decides for the two dates.
pub fn in_range(task: &Task, range: Range, timestamp: i64) -> (r: bool)
    ensures
        exists|current: LocalDate, item: LocalDate|
            #![trigger same_period(range, current, item)]
            date_fields_valid(current) && date_fields_valid(item) && (representable(timestamp as int)
                ==> date_near(timestamp as int, current)) && (representable(task@.ended as int)
                ==> date_near(task@.ended as int, item)) && r == same_period(range, current, item),
{
    let current = local_date(timestamp);
    let item = local_date(task.ended());
    in_period(range, current, item)
}

/// For each task's end date, whether it lies in the `range` around `current`.
pub open spec fn period_flags(range: Range, current: LocalDate, ended: Seq<LocalDate>) -> Seq<bool> {
    Seq::new(ended.len(), |k: int| same_period(range, current, ended[k]))
}

/// The local date on which each task ended, as `local_date` gives it.
pub fn end_dates(tasks: &[Task]) -> (r: Vec<LocalDate>)
    ensures
        r@.len() == tasks@.len(),
        forall|k: int| 0 <= k < r@.len() ==> date_fields_valid(#[trigger] r@[k]),
        forall|k: int|
            0 <= k < r@.len() && representable(tasks@[k]@.ended as int) ==> date_near(
                tasks@[k]@.ended as int,
                #[trigger] r@[k],
            ),
{
    let mut dates: Vec<LocalDate> = Vec::new();
    let mut i: usize = 0;
    while i < tasks.len()
        invariant
            i <= tasks@.len(),
            dates@.len() == i,
            forall|k: int| 0 <= k < dates@.len() ==> date_fields_valid(#[trigger] dates@[k]),
            forall|k: int|
                0 <= k < dates@.len() && representable(tasks@[k]@.ended as int) ==> date_near(
                    tasks@[k]@.ended as int,
                    #[trigger] dates@[k],
                ),
        decreases tasks@.len() - i,
    {
        dates.push(local_date(tasks[i].ended()));
        i = i + 1;
    }
    dates
}

/// The end dates that `end_dates` gives are near the ends of the tasks'
/// views.
pub proof fn lemma_end_dates_near(views: Seq<TaskView>, tasks: Seq<Task>, ended: Seq<LocalDate>)
    requires
        views == tasks.map_values(|t: Task| t@),
        ended.len() == tasks.len(),
        forall|k: int|
            0 <= k < ended.len() && representable(tasks[k]@.ended as int) ==> date_near(
                tasks[k]@.ended as int,
                #[trigger] ended[k],
            ),
    ensures
        forall|k: int|
            0 <= k < ended.len() && representable(views[k].ended as int) ==> date_near(
                views[k].ended as int,
                #[trigger] ended[k],
            ),
{
    assert forall|k: int|
        0 <= k < ended.len() && representable(views[k].ended as int) implies date_near(
        views[k].ended as int,
        #[trigger] ended[k],
    ) by {
        assert(views[k] == tasks[k]@);
    }
}

/// The weekday of a day number, counted from Monday (0); 1970-01-01 was a Thursday.
pub open spec fn weekday_of(days: int) -> int {
    (days + 3) % 7
}

/// The day number of the Monday that starts ISO week 1 of `iso_year`: the
/// week that holds 4 January.
pub open spec fn week_one_monday(iso_year: int) -> int {
    let january_fourth = days_from_civil(iso_year, 1, 4);
    january_fourth - weekday_of(january_fourth)
}

/// The ISO week fields of a date agree with its calendar date: its weekday
/// is that of its day number, and its day is `weekday` days after the Monday
/// of week `iso_week` of `iso_year`.
pub open spec fn iso_consistent(d: LocalDate) -> bool {
    let days = days_from_civil(d.year as int, d.month as int, d.day as int);
    &&& d.weekday as int == weekday_of(days)
    &&& days == week_one_monday(d.iso_year as int) + 7 * (d.iso_week - 1) + d.weekday
}

/// Two dates in the same ISO week lie at most six days apart.
pub proof fn law_same_week_is_within_six_days(current: LocalDate, item: LocalDate)
    requires
        iso_consistent(current),
        iso_consistent(item),
        same_period(Range::Week, current, item),
    ensures
        -6 <= days_from_civil(current.year as int, current.month as int, current.day as int)
            - days_from_civil(item.year as int, item.month as int, item.day as int) <= 6,
{
    let c = days_from_civil(current.year as int, current.month as int, current.day as int);
    let i = days_from_civil(item.year as int, item.month as int, item.day as int);
    assert(0 <= weekday_of(c) < 7);
    assert(0 <= weekday_of(i) < 7);
}

/// Every date lies in each range around itself.
pub proof fn law_date_in_own_period(range: Range, d: LocalDate)
    ensures
        same_period(range, d, d),
{
}

/// The same day lies in the same month, and the same month in the same year.
pub proof fn law_periods_nest(current: LocalDate, item: LocalDate)
    ensures
        same_period(Range::Day, current, item) ==> same_period(Range::Month, current, item),
        same_period(Range::Month, current, item) ==> same_period(Range::Year, current, item),
{
}

} // verus!
