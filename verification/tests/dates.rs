use elastio_task::dates::{classify_date, parse_date, today, Date, TemporalMode};
use elastio_task::error::WeatherError;

#[test]
fn test_parse_valid_date() {
    let d = parse_date("2023-04-12").unwrap();
    assert_eq!(d, Date { year: 2023, month: 4, day: 12 });
}

#[test]
fn test_parse_leap_day() {
    let d = parse_date("2024-02-29").unwrap();
    assert_eq!(d, Date { year: 2024, month: 2, day: 29 });
    assert!(matches!(
        parse_date("2023-02-29"),
        Err(WeatherError::InvalidDateValue)
    ));
}

#[test]
fn test_parse_century_leap_rule() {
    assert!(matches!(
        parse_date("1900-02-29"),
        Err(WeatherError::InvalidDateValue)
    ));
    let d = parse_date("2000-02-29").unwrap();
    assert_eq!(d, Date { year: 2000, month: 2, day: 29 });
}

#[test]
fn test_parse_invalid_calendar_value() {
    assert!(matches!(
        parse_date("2000-12-32"),
        Err(WeatherError::InvalidDateValue)
    ));
    assert!(matches!(
        parse_date("2023-13-01"),
        Err(WeatherError::InvalidDateValue)
    ));
}

#[test]
fn test_parse_invalid_format() {
    assert!(matches!(
        parse_date("2023-3-31"),
        Err(WeatherError::InvalidDateFormat)
    ));
    assert!(matches!(
        parse_date("988-04-01"),
        Err(WeatherError::InvalidDateFormat)
    ));
    assert!(matches!(
        parse_date("2023/04/12"),
        Err(WeatherError::InvalidDateFormat)
    ));
    assert!(matches!(parse_date(""), Err(WeatherError::InvalidDateFormat)));
    assert!(matches!(
        parse_date("２０２３-04-12"),
        Err(WeatherError::InvalidDateFormat)
    ));
    assert!(matches!(
        parse_date("2023-04-12 "),
        Err(WeatherError::InvalidDateFormat)
    ));
}

#[test]
fn test_day_numbers() {
    let epoch = Date {
        year: 1970,
        month: 1,
        day: 1,
    };
    assert_eq!(epoch.to_day_number(), 719528);
    let d = Date {
        year: 2023,
        month: 4,
        day: 10,
    };
    assert_eq!(d.to_day_number(), 738985);
}

#[test]
fn test_midday_timestamps() {
    let d = Date {
        year: 2023,
        month: 4,
        day: 12,
    };
    assert_eq!(d.to_midday_timestamp(), 1681300800);
    let old = Date {
        year: 1800,
        month: 12,
        day: 12,
    };
    assert_eq!(old.to_midday_timestamp(), -5334811200);
}

#[test]
fn test_classify_past_date_is_historical() {
    let today = Date {
        year: 2023,
        month: 4,
        day: 10,
    };
    let target = parse_date("2020-01-01").unwrap();
    assert_eq!(classify_date(&target, &today), TemporalMode::Historical);
}

#[test]
fn test_classify_today_is_historical() {
    let today = Date {
        year: 2023,
        month: 4,
        day: 10,
    };
    assert_eq!(classify_date(&today, &today), TemporalMode::Historical);
}

#[test]
fn test_classify_future_date_window() {
    let today = Date {
        year: 2023,
        month: 4,
        day: 10,
    };
    let target = Date {
        year: 2023,
        month: 4,
        day: 12,
    };
    assert_eq!(
        classify_date(&target, &today),
        TemporalMode::Forecast { days_from_now: 3 }
    );
}

#[test]
fn test_classify_across_year_end() {
    let today = Date {
        year: 2023,
        month: 12,
        day: 31,
    };
    let target = Date {
        year: 2024,
        month: 1,
        day: 1,
    };
    assert_eq!(
        classify_date(&target, &today),
        TemporalMode::Forecast { days_from_now: 2 }
    );
}

#[test]
fn test_calendar_extremes() {
    let first = parse_date("0000-01-01").unwrap();
    assert_eq!(first.to_day_number(), 0);
    assert_eq!(first.to_midday_timestamp(), -62167176000);
    let last = parse_date("9999-12-31").unwrap();
    assert_eq!(last.to_day_number(), 3652424);
}

#[test]
fn test_classify_against_the_clock() {
    // A date far in the past routes to historical mode whatever the
    // current date is.
    let target = parse_date("2020-01-01").unwrap();
    let now = today().unwrap();
    assert_eq!(classify_date(&target, &now), TemporalMode::Historical);
}

#[test]
fn test_today_is_a_valid_date() {
    let d = today().unwrap();
    assert!(1 <= d.month && d.month <= 12);
    assert!(1 <= d.day && d.day <= 31);
}
