use bill_notify::calendar::{
    display_time, iso_date, month_to_date, today_utc, CalendarDate, DateRange,
};

fn date(year: i32, month: u32, day: u32) -> CalendarDate {
    CalendarDate { year, month, day }
}

#[test]
fn today_is_the_date_in_utc() {
    assert_eq!(today_utc(0), Some(date(1970, 1, 1)));
    assert_eq!(today_utc(-1), Some(date(1969, 12, 31)));
    assert_eq!(today_utc(1_700_000_000), Some(date(2023, 11, 14)));
    assert_eq!(today_utc(1_709_251_199), Some(date(2024, 2, 29)));
    assert_eq!(today_utc(1_709_251_200), Some(date(2024, 3, 1)));
}

#[test]
fn moments_outside_the_calendar_have_no_date() {
    assert_eq!(today_utc(i64::MAX), None);
    assert_eq!(today_utc(i64::MIN), None);
}

#[test]
fn period_starts_on_the_first_of_the_month() {
    assert_eq!(
        month_to_date(date(2023, 11, 14)),
        DateRange { start: date(2023, 11, 1), end: date(2023, 11, 14) }
    );
    assert_eq!(
        month_to_date(date(2024, 3, 1)),
        DateRange { start: date(2024, 3, 1), end: date(2024, 3, 1) }
    );
}

#[test]
fn dates_are_written_with_hyphens() {
    assert_eq!(iso_date(date(2023, 11, 14)), Some("2023-11-14".to_string()));
    assert_eq!(iso_date(date(2024, 3, 1)), Some("2024-03-01".to_string()));
    assert_eq!(iso_date(date(2024, 2, 29)), Some("2024-02-29".to_string()));
}

#[test]
fn days_that_the_calendar_lacks_are_not_written() {
    assert_eq!(iso_date(date(2023, 2, 29)), None);
    assert_eq!(iso_date(date(2023, 4, 31)), None);
    assert_eq!(iso_date(date(2023, 0, 1)), None);
    assert_eq!(iso_date(date(2023, 13, 1)), None);
    assert_eq!(iso_date(date(2023, 1, 0)), None);
}

#[test]
fn time_is_shown_as_in_tokyo() {
    assert_eq!(display_time(0), Some("1970-01-01 09:00".to_string()));
    assert_eq!(display_time(1_700_000_000), Some("2023-11-15 07:13".to_string()));
    assert_eq!(display_time(1_709_251_199), Some("2024-03-01 08:59".to_string()));
}

#[test]
fn moments_outside_the_calendar_are_not_shown() {
    assert_eq!(display_time(i64::MAX), None);
}
