use mealplan::date::{parse_date, plan_name, Date};
use mealplan::text::{i32_to_string, str_eq};

#[test]
fn parse_accepts_a_plain_date() {
    let d = parse_date("2024-05-17").unwrap();
    assert_eq!(d.year, 2024);
    assert_eq!(d.month, 5);
    assert_eq!(d.day, 17);
}

#[test]
fn parse_accepts_leap_day() {
    let d = parse_date("2024-02-29").unwrap();
    assert_eq!(d.year, 2024);
    assert_eq!(d.month, 2);
    assert_eq!(d.day, 29);
}

#[test]
fn parse_rejects_impossible_days() {
    assert!(parse_date("2023-02-29").is_none());
    assert!(parse_date("2024-04-31").is_none());
    assert!(parse_date("2024-13-01").is_none());
    assert!(parse_date("2024-00-10").is_none());
    assert!(parse_date("2024-01-00").is_none());
}

#[test]
fn parse_rejects_malformed_text() {
    assert!(parse_date("2024-1-05").is_none());
    assert!(parse_date("24-01-05").is_none());
    assert!(parse_date("2024/01/05").is_none());
    assert!(parse_date("2024-01-05x").is_none());
    assert!(parse_date("").is_none());
    assert!(parse_date("not a date").is_none());
}

#[test]
fn next_day_steps_within_a_month() {
    let d = Date { year: 2024, month: 5, day: 17 };
    let n = d.next_day().unwrap();
    assert_eq!((n.year, n.month, n.day), (2024, 5, 18));
}

#[test]
fn next_day_rolls_over_month_and_year() {
    let d = Date { year: 2024, month: 4, day: 30 };
    let n = d.next_day().unwrap();
    assert_eq!((n.year, n.month, n.day), (2024, 5, 1));

    let d = Date { year: 2023, month: 12, day: 31 };
    let n = d.next_day().unwrap();
    assert_eq!((n.year, n.month, n.day), (2024, 1, 1));

    let d = Date { year: 2024, month: 2, day: 28 };
    let n = d.next_day().unwrap();
    assert_eq!((n.year, n.month, n.day), (2024, 2, 29));
}

#[test]
fn next_day_runs_out_at_the_calendar_end() {
    let d = Date { year: 9999, month: 12, day: 31 };
    assert!(d.next_day().is_none());
}

#[test]
fn plan_name_is_day_month_year() {
    let d = Date { year: 2024, month: 5, day: 7 };
    assert_eq!(plan_name(d), "Meal Plan 07/05/2024");
}

#[test]
fn plan_name_pads_each_field() {
    let d = Date { year: 987, month: 11, day: 23 };
    assert_eq!(plan_name(d), "Meal Plan 23/11/0987");
}

#[test]
fn numbers_render_in_decimal() {
    assert_eq!(i32_to_string(0), "0");
    assert_eq!(i32_to_string(7), "7");
    assert_eq!(i32_to_string(42), "42");
    assert_eq!(i32_to_string(120345), "120345");
    assert_eq!(i32_to_string(-8), "-8");
    assert_eq!(i32_to_string(i32::MIN), "-2147483648");
}

#[test]
fn string_comparison_is_exact() {
    assert!(str_eq("abc", "abc"));
    assert!(!str_eq("abc", "abd"));
    assert!(!str_eq("abc", "abcd"));
    assert!(str_eq("", ""));
}
