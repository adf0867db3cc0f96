use chrono::{Datelike, NaiveDate};
use posture_sense::report::{hour_label, oldest_first, weekday_label, DailyPoint, ReportRange};
use posture_sense::streak::{best_streak, calculate_streak, current_streak, EPOCH_DAY};

fn day(s: &str) -> i32 {
    NaiveDate::parse_from_str(s, "%Y-%m-%d").unwrap().num_days_from_ce()
}

fn dates(list: &[&str]) -> Vec<String> {
    list.iter().map(|s| s.to_string()).collect()
}

#[test]
fn epoch_day_is_1970_01_01() {
    assert_eq!(EPOCH_DAY, day("1970-01-01"));
}

#[test]
fn current_streak_counts_from_today() {
    let d = dates(&["2024-03-10", "2024-03-09", "2024-03-08", "2024-03-06"]);
    assert_eq!(current_streak(&d, day("2024-03-10")), 3);
}

#[test]
fn current_streak_counts_from_yesterday() {
    let d = dates(&["2024-03-09", "2024-03-08"]);
    assert_eq!(current_streak(&d, day("2024-03-10")), 2);
}

#[test]
fn current_streak_broken_is_zero() {
    let d = dates(&["2024-03-07", "2024-03-06"]);
    assert_eq!(current_streak(&d, day("2024-03-10")), 0);
    assert_eq!(current_streak(&Vec::new(), day("2024-03-10")), 0);
}

#[test]
fn current_streak_crosses_month_end_and_skips_bad_dates() {
    let d = dates(&["2024-03-01", "not a date", "2024-02-29", "2024-02-28"]);
    assert_eq!(current_streak(&d, day("2024-03-01")), 3);
}

#[test]
fn calculate_streak_caps_at_window() {
    let start = NaiveDate::from_ymd_opt(2024, 6, 1).unwrap();
    let d: Vec<String> = (0..70).map(|i| (start - chrono::Duration::days(i)).format("%Y-%m-%d").to_string()).collect();
    assert_eq!(calculate_streak(&d, day("2024-06-01")), (60, 60));
    assert_eq!(calculate_streak(&d[..5].to_vec(), day("2024-06-02")), (5, 5));
    assert_eq!(calculate_streak(&Vec::new(), day("2024-06-02")), (0, 0));
}

#[test]
fn best_streak_finds_longest_run() {
    let d = dates(&["2024-03-10", "2024-03-09", "2024-03-05", "2024-03-04", "2024-03-03", "2024-02-01"]);
    assert_eq!(best_streak(&d), 3);
}

#[test]
fn best_streak_edge_cases() {
    assert_eq!(best_streak(&Vec::new()), 0);
    assert_eq!(best_streak(&dates(&["2024-03-10"])), 1);
    assert_eq!(best_streak(&dates(&["1970-01-02", "garbage"])), 2);
    assert_eq!(best_streak(&dates(&["2024-03-10", "2024-03-10"])), 1);
}

#[test]
fn hour_label_appends_minutes() {
    assert_eq!(hour_label("09".to_string()), "09:00");
}

#[test]
fn weekday_label_names_the_day() {
    assert_eq!(weekday_label(&"2024-02-10".to_string()), "Sat");
    assert_eq!(weekday_label(&"2024-02-12".to_string()), "Mon");
    assert_eq!(weekday_label(&"0001-01-01".to_string()), "Mon");
    assert_eq!(weekday_label(&"bad".to_string()), "Thu");
}

#[test]
fn trend_is_oldest_first() {
    let pts = vec![
        DailyPoint { date: "2024-03-10".to_string(), score: 80 },
        DailyPoint { date: "2024-03-09".to_string(), score: 70 },
        DailyPoint { date: "2024-03-08".to_string(), score: 60 },
    ];
    let trend = oldest_first(pts);
    let names: Vec<&str> = trend.iter().map(|p| p.date.as_str()).collect();
    assert_eq!(names, vec!["2024-03-08", "2024-03-09", "2024-03-10"]);
    assert_eq!(trend[0].score, 60);
}

#[test]
fn report_range_from_name() {
    assert_eq!(ReportRange::from_name(&"day".to_string()), ReportRange::Day);
    assert_eq!(ReportRange::from_name(&"week".to_string()), ReportRange::Week);
    assert_eq!(ReportRange::from_name(&"month".to_string()), ReportRange::Month);
    assert_eq!(ReportRange::from_name(&"".to_string()), ReportRange::Month);
}

#[test]
fn report_point_labels() {
    assert_eq!(ReportRange::Day.point_label("14".to_string()), "14:00");
    assert_eq!(ReportRange::Week.point_label("2024-02-13".to_string()), "Tue");
    assert_eq!(ReportRange::Month.point_label("07".to_string()), "07");
}
