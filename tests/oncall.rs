use oncall_status::duty::{classify_duty, time_remaining, Duty};
use oncall_status::present::{
    get_icons, render_icon, render_line, render_report, schedule_href, CENTER_X, GREEN_CIRCLE,
    YELLOW_CIRCLE,
};
use oncall_status::request::{auth_header_value, QueryWindow, LOOKAHEAD_DAYS};
use oncall_status::shift::{filter_by_user, Shift};
use oncall_status::text::{decimal, format_duration};
use oncall_status::time::{Instant, DAY_MS, HOUR_MS, MAX_MILLIS, MINUTE_MS, MIN_MILLIS, SECOND_MS};

const JAN1_10H: i64 = 1_704_103_200_000;

fn at(ms: i64) -> Instant {
    Instant::from_millis(ms).unwrap()
}

fn shift(start: i64, end: i64, schedule: &str, user: &str) -> Shift {
    Shift {
        start: at(start),
        end: at(end),
        schedule_id: format!("{schedule}-id"),
        schedule_summary: schedule.to_string(),
        user_id: user.to_string(),
    }
}

#[test]
fn shift_starting_now_is_on_duty_now() {
    let now = at(JAN1_10H);
    let shifts = vec![shift(JAN1_10H, JAN1_10H + HOUR_MS, "P", "a")];
    assert_eq!(classify_duty(now, &shifts), Duty::OnDutyNow);
}

#[test]
fn shift_ending_now_is_off_duty() {
    let now = at(JAN1_10H);
    let shifts = vec![shift(JAN1_10H - SECOND_MS, JAN1_10H, "P", "a")];
    assert_eq!(classify_duty(now, &shifts), Duty::OffDuty);
}

#[test]
fn shift_one_day_ahead_is_soon_and_one_second_more_is_not() {
    let now = at(JAN1_10H);
    let s = JAN1_10H + DAY_MS;
    assert_eq!(classify_duty(now, &vec![shift(s, s + HOUR_MS, "P", "a")]), Duty::OnDutySoon);
    let s = s + SECOND_MS;
    assert_eq!(classify_duty(now, &vec![shift(s, s + HOUR_MS, "P", "a")]), Duty::OffDuty);
}

#[test]
fn active_shift_takes_precedence_over_soon() {
    let now = at(JAN1_10H);
    let shifts = vec![
        shift(JAN1_10H + 2 * HOUR_MS, JAN1_10H + 3 * HOUR_MS, "P", "a"),
        shift(JAN1_10H - HOUR_MS, JAN1_10H + HOUR_MS, "P", "a"),
    ];
    assert_eq!(classify_duty(now, &shifts), Duty::OnDutyNow);
}

#[test]
fn no_shifts_is_off_duty() {
    assert_eq!(classify_duty(at(JAN1_10H), &Vec::new()), Duty::OffDuty);
}

#[test]
fn duration_labels_truncate() {
    assert_eq!(format_duration(59 * MINUTE_MS), "59m");
    assert_eq!(format_duration(60 * MINUTE_MS), "1h");
    assert_eq!(format_duration(23 * HOUR_MS), "23h");
    assert_eq!(format_duration(24 * HOUR_MS), "1d");
    assert_eq!(format_duration(25 * HOUR_MS), "1d");
    assert_eq!(format_duration(0), "0m");
    assert_eq!(format_duration(59 * SECOND_MS), "0m");
    assert_eq!(format_duration(20 * DAY_MS + 23 * HOUR_MS), "20d");
    assert_eq!(format_duration(-5 * MINUTE_MS - 30 * SECOND_MS), "-5m");
}

#[test]
fn decimal_numerals() {
    assert_eq!(decimal(0), "0");
    assert_eq!(decimal(1234567890), "1234567890");
    assert_eq!(decimal(-42), "-42");
    assert_eq!(decimal(i64::MIN), "-9223372036854775808");
    assert_eq!(decimal(i64::MAX), "9223372036854775807");
}

#[test]
fn time_remaining_before_and_during_shift() {
    let now = at(JAN1_10H);
    let later = shift(JAN1_10H + 90 * MINUTE_MS, JAN1_10H + 5 * HOUR_MS, "P", "a");
    assert_eq!(time_remaining(now, &later), "1h");
    let ongoing = shift(JAN1_10H - 10 * MINUTE_MS, JAN1_10H + 2 * HOUR_MS, "P", "a");
    assert_eq!(time_remaining(now, &ongoing), "now, 2h");
    let starting = shift(JAN1_10H, JAN1_10H + 3 * DAY_MS, "P", "a");
    assert_eq!(time_remaining(now, &starting), "now, 3d");
}

#[test]
fn filter_keeps_only_the_users_shifts_in_order() {
    let shifts = vec![
        shift(JAN1_10H, JAN1_10H + HOUR_MS, "P", "A"),
        shift(JAN1_10H + HOUR_MS, JAN1_10H + 2 * HOUR_MS, "P", "B"),
        shift(JAN1_10H + 2 * HOUR_MS, JAN1_10H + 3 * HOUR_MS, "P", "A"),
        shift(JAN1_10H + 3 * HOUR_MS, JAN1_10H + 4 * HOUR_MS, "P", "B"),
    ];
    let kept = filter_by_user(shifts, &"A".to_string());
    assert_eq!(kept.len(), 2);
    assert!(kept.iter().all(|s| s.user_id == "A"));
    assert_eq!(kept[0].start.ms, JAN1_10H);
    assert_eq!(kept[1].start.ms, JAN1_10H + 2 * HOUR_MS);
    let none = filter_by_user(kept, &"C".to_string());
    assert!(none.is_empty());
}

#[test]
fn empty_icon_configuration_uses_defaults() {
    let icons = get_icons("");
    assert_eq!(icons, (GREEN_CIRCLE, YELLOW_CIRCLE, CENTER_X));
    assert_eq!(icons, ('\u{1F7E2}', '\u{1F7E1}', '\u{00D7}'));
    assert_eq!(render_icon(Duty::OnDutyNow, icons), GREEN_CIRCLE);
    assert_eq!(render_icon(Duty::OnDutySoon, icons), YELLOW_CIRCLE);
    assert_eq!(render_icon(Duty::OffDuty, icons), CENTER_X);
}

#[test]
fn configured_icons_override_defaults_by_position() {
    assert_eq!(get_icons("abc"), ('a', 'b', 'c'));
    assert_eq!(get_icons("a"), ('a', YELLOW_CIRCLE, CENTER_X));
    assert_eq!(get_icons("\u{1F525}\u{1F440}"), ('\u{1F525}', '\u{1F440}', CENTER_X));
    assert_eq!(get_icons("abcd"), ('a', 'b', 'c'));
}

#[test]
fn end_to_end_on_duty_now() {
    let now = Instant::parse("2024-01-01T10:00:00Z").unwrap();
    assert_eq!(now.ms, JAN1_10H);
    let s = Shift::from_fields(
        "2024-01-01T09:00:00Z",
        "2024-01-01T18:00:00Z",
        "PSCHED1".to_string(),
        "Primary".to_string(),
        "U1".to_string(),
    )
    .unwrap();
    let shifts = vec![s];
    assert_eq!(classify_duty(now, &shifts), Duty::OnDutyNow);
    let report = render_report(now, &shifts, "", &None);
    assert_eq!(report.icon, GREEN_CIRCLE);
    assert_eq!(report.upcoming.len(), 1);
    assert!(report.upcoming[0].starts_with("Primary - (now, 8h) "));
    assert!(report.upcoming[0].contains("now, 8h"));
    assert!(!report.upcoming[0].contains("href="));
    let linked = render_report(now, &shifts, "xyz", &Some("https://acme.example".to_string()));
    assert_eq!(linked.icon, 'x');
    assert!(linked.upcoming[0].ends_with(" | href=https://acme.example/schedules#PSCHED1"));
}

#[test]
fn report_keeps_fetch_order() {
    let now = at(JAN1_10H);
    let shifts = vec![
        shift(JAN1_10H + 3 * DAY_MS, JAN1_10H + 4 * DAY_MS, "Late", "a"),
        shift(JAN1_10H + 2 * HOUR_MS, JAN1_10H + 4 * HOUR_MS, "Early", "a"),
    ];
    let report = render_report(now, &shifts, "", &None);
    assert_eq!(report.icon, YELLOW_CIRCLE);
    assert!(report.upcoming[0].starts_with("Late - (3d) "));
    assert!(report.upcoming[1].starts_with("Early - (2h) "));
}

#[test]
fn parse_accepts_offsets_and_rejects_garbage() {
    assert_eq!(Instant::parse("2024-01-01T11:00:00+01:00").unwrap().ms, JAN1_10H);
    assert_eq!(Instant::parse("2024-01-01T10:00:00.250Z").unwrap().ms, JAN1_10H + 250);
    assert!(Instant::parse("yesterday").is_none());
    assert!(Shift::from_fields("2024-01-01T09:00:00Z", "", String::new(), String::new(), String::new()).is_none());
}

#[test]
fn instants_outside_years_one_to_9999_are_refused() {
    assert!(Instant::from_millis(MAX_MILLIS).is_some());
    assert!(Instant::from_millis(MAX_MILLIS + 1).is_none());
    assert!(Instant::from_millis(MIN_MILLIS).is_some());
    assert!(Instant::from_millis(MIN_MILLIS - 1).is_none());
    assert!(Instant::parse("+10000-01-01T00:00:00Z").is_none());
    assert_eq!(at(JAN1_10H).checked_add_millis(DAY_MS).unwrap().ms, JAN1_10H + DAY_MS);
    assert!(at(MAX_MILLIS).checked_add_millis(1).is_none());
    assert_eq!(at(JAN1_10H).millis_since(at(JAN1_10H + 5)), -5);
}

#[test]
fn query_window_and_parameters() {
    let now = at(JAN1_10H + 789);
    let w = QueryWindow::starting_at(now).unwrap();
    assert_eq!(w.from, now);
    assert_eq!(w.to.ms, now.ms + LOOKAHEAD_DAYS * DAY_MS);
    let params = w.query_params(&"PSCHED1".to_string());
    let expected = vec![
        ("schedule_ids[]".to_string(), "PSCHED1".to_string()),
        ("since".to_string(), "2024-01-01T10:00:00Z".to_string()),
        ("until".to_string(), "2024-01-15T10:00:00Z".to_string()),
    ];
    assert_eq!(params, expected);
    assert!(QueryWindow::starting_at(at(MAX_MILLIS - DAY_MS)).is_none());
}

#[test]
fn authorization_header_and_links() {
    assert_eq!(auth_header_value(&"SECRET-REDACTED".to_string()), "Token token=SECRET-REDACTED");
    assert_eq!(schedule_href(&None, &"S1".to_string()), "");
    assert_eq!(
        schedule_href(&Some("https://d.example".to_string()), &"S1".to_string()),
        " | href=https://d.example/schedules#S1"
    );
    assert_eq!(render_line("Primary", "1h", "Mon 01 Jan 09:00", "Mon 01 Jan 18:00", ""), "Primary - (1h) Mon 01 Jan 09:00 - Mon 01 Jan 18:00");
}
