//! The records that the persistence layer and the reports exchange with the
//! user interface, and the labels of report points.
use crate::streak::{day_or_epoch, parse_day, EPOCH_DAY};
use vstd::prelude::*;
use vstd::string::StringExecFns;

verus! {

/// A completed tracking session, as stored.
#[derive(Debug, Clone)]
pub struct SessionSummary {
    pub id: String,
    pub start_time: String,
    pub end_time: String,
    pub duration_sec: i64,
    pub avg_score: i64,
    pub good_time_sec: i64,
    pub bad_time_sec: i64,
    pub breakdown_json: String,
}

/// One point of a report graph: an hour, a weekday or a day of the month.
#[derive(Debug, Clone)]
pub struct ReportDataPoint {
    pub name: String,
    pub score: i64,
    /// Focus time, in minutes.
    pub focus: i64,
}

/// One row of the session history.
#[derive(Debug, Clone)]
pub struct SessionData {
    pub id: i64,
    pub timestamp: String,
    pub duration: i64,
    pub score: i64,
}

/// The figures of the dashboard.
#[derive(Debug, Clone, Copy, PartialEq, Eq, Structural)]
pub struct DashboardStatsStruct {
    pub current_streak: i64,
    pub focus_time_today: i64,
    pub coaching_stage: i64,
}

/// The score of one day.
#[derive(Debug, Clone)]
pub struct DailyPoint {
    pub date: String,
    pub score: i32,
}

/// The average score of one hour of the day.
#[derive(Debug, Clone)]
pub struct HourlyPoint {
    pub hour: String,
    pub score: i32,
}

/// The label of an hour of the day: the hour followed by `:00`.
pub fn hour_label(hour: String) -> (label: String)
    ensures
        label@ == hour@ + ":00"@,
{
    hour.concat(":00")
}

/// The weekday of a day number, 0 for Monday to 6 for Sunday (0001-01-01,
/// day 1, was a Monday).
pub open spec fn weekday_of(day: int) -> int {
    (day - 1) % 7
}

/// The three-letter English name of weekday `w` (0 for Monday).
pub open spec fn weekday_name(w: int) -> Seq<char> {
    if w == 0 {
        "Mon"@
    } else if w == 1 {
        "Tue"@
    } else if w == 2 {
        "Wed"@
    } else if w == 3 {
        "Thu"@
    } else if w == 4 {
        "Fri"@
    } else if w == 5 {
        "Sat"@
    } else {
        "Sun"@
    }
}

/// The label of a day of the week report: the weekday name of the date, an
/// unreadable date being taken as 1970-01-01.
pub fn weekday_label(date: &String) -> (label: String)
    ensures
        label@ == weekday_name(weekday_of(day_or_epoch(date@))),
{
    let day: i32 = match parse_day(date.as_str()) {
        Some(d) => d,
        None => EPOCH_DAY,
    };
    let w: i64 = (day as i64 - 1) % 7;
    let w: i64 = if w < 0 { w + 7 } else { w };
    assert(w == weekday_of(day as int));
    if w == 0 {
        "Mon".to_owned()
    } else if w == 1 {
        "Tue".to_owned()
    } else if w == 2 {
        "Wed".to_owned()
    } else if w == 3 {
        "Thu".to_owned()
    } else if w == 4 {
        "Fri".to_owned()
    } else if w == 5 {
        "Sat".to_owned()
    } else {
        "Sun".to_owned()
    }
}

/// The daily trend in chronological order, from points listed newest first.
pub fn oldest_first(points: Vec<DailyPoint>) -> (trend: Vec<DailyPoint>)
    ensures
        trend@ == points@.reverse(),
{
    let mut rest = points;
    let mut trend: Vec<DailyPoint> = Vec::new();
    let ghost given = rest@;
    while rest.len() > 0
        invariant
            given.len() == rest@.len() + trend@.len(),
            rest@ == given.subrange(0, rest@.len() as int),
            trend@ == given.subrange(rest@.len() as int, given.len() as int).reverse(),
        decreases rest@.len(),
    {
        let p = rest.pop().unwrap();
        trend.push(p);
        assert(trend@ =~= given.subrange(rest@.len() as int, given.len() as int).reverse());
    }
    assert(trend@ =~= given.reverse());
    trend
}

/// The span that a report covers.
#[derive(Debug, Clone, Copy, PartialEq, Eq, Structural)]
pub enum ReportRange {
    /// Today, hour by hour.
    Day,
    /// The last seven days, day by day.
    Week,
    /// The current month, day by day.
    Month,
}

/// The range that a report request names: `day`, `week`, and any other
/// name for the month.
pub open spec fn range_named(name: Seq<char>) -> ReportRange {
    if name == "day"@ {
        ReportRange::Day
    } else if name == "week"@ {
        ReportRange::Week
    } else {
        ReportRange::Month
    }
}

/// The label of a report point of the range `range`, from the label column
/// of its row.
pub open spec fn point_label_of(range: ReportRange, label: Seq<char>) -> Seq<char> {
    match range {
        ReportRange::Day => label + ":00"@,
        ReportRange::Week => weekday_name(weekday_of(day_or_epoch(label))),
        ReportRange::Month => label,
    }
}

impl ReportRange {
    /// The range that a report request names.
    pub fn from_name(name: &String) -> (range: ReportRange)
        ensures
            range == range_named(name@),
    {
        let day = "day".to_owned();
        let week = "week".to_owned();
        if *name == day {
            ReportRange::Day
        } else if *name == week {
            ReportRange::Week
        } else {
            ReportRange::Month
        }
    }

    /// The label of a report point: an hour (`09:00`) for a day, a weekday
    /// name for a week, the day of the month as it is for a month.
    pub fn point_label(self, label: String) -> (name: String)
        ensures
            name@ == point_label_of(self, label@),
    {
        match self {
            ReportRange::Day => hour_label(label),
            ReportRange::Week => weekday_label(&label),
            ReportRange::Month => label,
        }
    }
}

} // verus!
