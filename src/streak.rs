//! Practice streaks over the calendar dates (`YYYY-MM-DD`) on which sessions
//! were recorded.
//!
//! Dates are compared as day numbers, so two dates are consecutive exactly
//! when their day numbers differ by one.
use vstd::prelude::*;

verus! {

/// Day number of 1970-01-01, the date that an unreadable date stands for
/// when the best streak is computed.
pub const EPOCH_DAY: i32 = 719163;

/// The longest current streak that `calculate_streak` counts.
pub const STREAK_WINDOW: u64 = 60;

/// The day number (0001-01-01 is day 1) of the `YYYY-MM-DD` date written in
/// `s`, or `None` when `s` is no such date.
pub uninterp spec fn calendar_day_of(s: Seq<char>) -> Option<int>;

/// Relies on `chrono::NaiveDate::parse_from_str` with the format `%Y-%m-%d`,
/// which reads a date or fails, and `Datelike::num_days_from_ce`, which
/// numbers the days of the proleptic Gregorian calendar from 0001-01-01 as
/// day 1.
#[verifier::external_body]
pub(crate) fn parse_day(s: &str) -> (r: Option<i32>)
    ensures
        r matches Some(d) ==> calendar_day_of(s@) == Some(d as int),
        r is None ==> calendar_day_of(s@) is None,
{
    match chrono::NaiveDate::parse_from_str(s, "%Y-%m-%d") {
        Ok(date) => Some(chrono::Datelike::num_days_from_ce(&date)),
        Err(_) => None,
    }
}

/// Whether one of `dates` is the day `d`.
pub open spec fn has_date(dates: Seq<String>, d: int) -> bool {
    has_date_before(dates, dates.len() as int, d)
}

/// Whether one of the first `n` of `dates` is the day `d`.
pub open spec fn has_date_before(dates: Seq<String>, n: int, d: int) -> bool {
    exists|i: int| 0 <= i < n && calendar_day_of(#[trigger] dates[i]@) == Some(d)
}

/// Whether the day numbers `days` hold the day `d`.
pub open spec fn holds_day(days: Seq<i32>, d: int) -> bool {
    exists|j: int| 0 <= j < days.len() && #[trigger] days[j] as int == d
}

/// Whether the `n` days `start, start - 1, ..., start - n + 1` are all among
/// `dates`.
pub open spec fn run_back(dates: Seq<String>, start: int, n: int) -> bool {
    forall|k: int| 0 <= k < n ==> has_date(dates, #[trigger] (start - k))
}

/// The day from which the current streak counts back: today if it has a
/// session, otherwise yesterday.
pub open spec fn streak_start(dates: Seq<String>, today: int) -> int {
    if has_date(dates, today) {
        today
    } else {
        today - 1
    }
}

/// The day numbers of the readable `dates`, in any order.
fn readable_days(dates: &Vec<String>) -> (days: Vec<i32>)
    ensures
        forall|d: int| #[trigger] has_date(dates@, d) <==> holds_day(days@, d),
{
    let mut days: Vec<i32> = Vec::new();
    let mut i: usize = 0;
    while i < dates.len()
        invariant
            i <= dates@.len(),
            forall|d: int| #[trigger] has_date_before(dates@, i as int, d) <==> holds_day(days@, d),
        decreases dates@.len() - i,
    {
        let parsed = parse_day(dates[i].as_str());
        let ghost before = days@;
        match parsed {
            Some(d) => {
                days.push(d);
            },
            None => {},
        }
        proof {
            assert forall|d: int| #[trigger] has_date_before(dates@, i + 1, d) <==> holds_day(days@, d) by {
                if has_date_before(dates@, i + 1, d) {
                    let k = choose|k: int| 0 <= k < i + 1 && calendar_day_of(#[trigger] dates@[k]@) == Some(d);
                    if k < i {
                        assert(has_date_before(dates@, i as int, d));
                        let j = choose|j: int| 0 <= j < before.len() && #[trigger] before[j] as int == d;
                        assert(days@[j] == before[j]);
                    } else {
                        assert(parsed is Some);
                        assert(days@[days@.len() - 1] as int == d);
                    }
                }
                if holds_day(days@, d) {
                    let j = choose|j: int| 0 <= j < days@.len() && #[trigger] days@[j] as int == d;
                    if j < before.len() {
                        assert(before[j] == days@[j]);
                        assert(holds_day(before, d));
                        assert(has_date_before(dates@, i as int, d));
                        let k = choose|k: int| 0 <= k < i && calendar_day_of(#[trigger] dates@[k]@) == Some(d);
                        assert(0 <= k < i + 1);
                    } else {
                        assert(calendar_day_of(dates@[i as int]@) == Some(d));
                    }
                }
            }
        }
        i = i + 1;
    }
    days
}

/// Whether `days` holds the day `d`.
fn contains_day(days: &Vec<i32>, d: i64) -> (r: bool)
    ensures
        r == holds_day(days@, d as int),
{
    let mut j: usize = 0;
    while j < days.len()
        invariant
            j <= days@.len(),
            forall|k: int| 0 <= k < j ==> #[trigger] days@[k] as int != d,
        decreases days@.len() - j,
    {
        if days[j] as i64 == d {
            return true;
        }
        j = j + 1;
    }
    false
}

/// Counts the days `start, start - 1, ...` held by `dates`, stopping at the
/// first missing day or at `cap`.
fn count_back(dates: &Vec<String>, start: i64, cap: u64) -> (n: u64)
    requires
        start >= i32::MIN - 1,
        start <= i32::MAX,
    ensures
        n <= cap,
        run_back(dates@, start as int, n as int),
        n < cap ==> !has_date(dates@, start - n),
{
    let days = readable_days(dates);
    let mut n: u64 = 0;
    while n < cap && contains_day(&days, start - n as i64)
        invariant
            forall|d: int| #[trigger] has_date(dates@, d) <==> holds_day(days@, d),
            start >= i32::MIN - 1,
            start <= i32::MAX,
            n <= cap,
            start - n >= i32::MIN - 1,
            run_back(dates@, start as int, n as int),
        decreases start - n - (i32::MIN - 1),
    {
        proof {
            let d = start - n;
            let j = choose|j: int| 0 <= j < days@.len() && #[trigger] days@[j] as int == d;
            assert(days@[j] >= i32::MIN);
            assert forall|k: int| 0 <= k < n + 1 implies has_date(dates@, #[trigger] (start - k)) by {
                if k == n {
                    assert(days@[j] as int == start - k);
                }
            }
        }
        n = n + 1;
    }
    n
}

/// The current streak: the number of consecutive days with a session that
/// end today, or end yesterday when today has none yet. Unreadable dates
/// count for nothing.
pub fn current_streak(dates: &Vec<String>, today: i32) -> (streak: u64)
    ensures
        run_back(dates@, streak_start(dates@, today as int), streak as int),
        !has_date(dates@, streak_start(dates@, today as int) - streak),
{
    let days = readable_days(dates);
    let start: i64 = if contains_day(&days, today as i64) {
        today as i64
    } else {
        today as i64 - 1
    };
    count_back(dates, start, u64::MAX)
}

/// The streak reported with a session report: counted back from today, or
/// from yesterday when today has no session, over at most the 60 days that
/// the report looks at. Both the current and the best streak are this count.
pub fn calculate_streak(dates: &Vec<String>, today: i32) -> (streaks: (u64, u64))
    ensures
        streaks.0 == streaks.1,
        streaks.0 <= STREAK_WINDOW,
        run_back(dates@, streak_start(dates@, today as int), streaks.0 as int),
        streaks.0 < STREAK_WINDOW ==> !has_date(dates@, streak_start(dates@, today as int) - streaks.0),
{
    let days = readable_days(dates);
    let start: i64 = if contains_day(&days, today as i64) {
        today as i64
    } else {
        today as i64 - 1
    };
    let n = count_back(dates, start, STREAK_WINDOW);
    (n, n)
}

/// The day number of `s`, or that of 1970-01-01 when `s` is unreadable.
pub open spec fn day_or_epoch(s: Seq<char>) -> int {
    match calendar_day_of(s) {
        Some(d) => d,
        None => EPOCH_DAY as int,
    }
}

/// Whether entries `i..=j` of `days` (newest first) are one day apart each.
pub open spec fn is_run(days: Seq<int>, i: int, j: int) -> bool {
    &&& 0 <= i <= j < days.len()
    &&& forall|k: int| i <= k < j ==> #[trigger] days[k] - days[k + 1] == 1
}

/// The day numbers of `dates`, each unreadable date taken as 1970-01-01.
pub open spec fn date_days(dates: Seq<String>) -> Seq<int> {
    Seq::new(dates.len(), |i: int| day_or_epoch(dates[i]@))
}

/// Whether `best` is the length of the longest run of entries of `days`,
/// each one day before the entry ahead of it (0 for no entries).
pub open spec fn is_longest_run(days: Seq<int>, best: int) -> bool {
    &&& days.len() == 0 ==> best == 0
    &&& days.len() > 0 ==> exists|i: int| #[trigger] is_run(days, i, i + best - 1)
    &&& forall|i: int, j: int| #[trigger] is_run(days, i, j) ==> j - i + 1 <= best
}

/// The longest streak: the longest stretch of `dates`, listed newest first,
/// in which each date is the day before the one ahead of it. Unreadable
/// dates are taken as 1970-01-01.
pub fn best_streak(dates: &Vec<String>) -> (best: u64)
    ensures
        is_longest_run(date_days(dates@), best as int),
{
    let ghost ds = date_days(dates@);
    let n: usize = dates.len();
    if n == 0 {
        return 0;
    }
    let mut days: Vec<i32> = Vec::new();
    let mut i: usize = 0;
    while i < n
        invariant
            n == dates@.len(),
            ds == date_days(dates@),
            i <= n,
            days@.len() == i,
            forall|k: int| 0 <= k < i ==> #[trigger] days@[k] as int == ds[k],
        decreases n - i,
    {
        let day = match parse_day(dates[i].as_str()) {
            Some(d) => d,
            None => EPOCH_DAY,
        };
        days.push(day);
        i = i + 1;
    }
    let mut best: u64 = 0;
    let mut run: u64 = 1;
    let mut i: usize = 1;
    while i < n
        invariant
            n == dates@.len(),
            ds == date_days(dates@),
            days@.len() == n,
            forall|k: int| 0 <= k < n ==> #[trigger] days@[k] as int == ds[k],
            1 <= i <= n,
            1 <= run <= i,
            best <= i,
            is_run(ds, i - run, i - 1),
            i - run == 0 || ds[i - run - 1] - ds[i - run] != 1,
            best == 0 || exists|a: int| #[trigger] is_run(ds, a, a + best - 1),
            forall|a: int, b: int| #[trigger] is_run(ds, a, b) && b < i ==> b - a + 1 <= run || b - a + 1 <= best,
        decreases n - i,
    {
        let prev = i - 1;
        if days[prev] as i64 - days[i] as i64 == 1 {
            proof {
                assert forall|a: int, b: int| #[trigger] is_run(ds, a, b) && b < i + 1 implies b - a + 1
                    <= run + 1 || b - a + 1 <= best by {
                    if b == i && a < i - run {
                        assert(ds[i - run - 1] - ds[i - run] == 1);
                    }
                    if b < i {
                        assert(is_run(ds, a, b));
                    }
                }
                assert(is_run(ds, i - run, i as int));
            }
            run = run + 1;
        } else {
            proof {
                if run > best {
                    assert(is_run(ds, i - run, (i - run) + run - 1));
                }
                assert forall|a: int, b: int| #[trigger] is_run(ds, a, b) && b < i + 1 implies b - a + 1
                    <= 1 || b - a + 1 <= (if run > best { run } else { best }) by {
                    if b == i && a < i {
                        assert(ds[b - 1] - ds[b] == 1);
                    }
                    if b < i {
                        assert(is_run(ds, a, b));
                    }
                }
                assert(is_run(ds, i as int, i as int));
            }
            if run > best {
                best = run;
            }
            run = 1;
        }
        i = i + 1;
    }
    proof {
        if run > best {
            assert(is_run(ds, n - run, (n - run) + run - 1));
        }
    }
    if run > best {
        best = run;
    }
    best
}

} // verus!
