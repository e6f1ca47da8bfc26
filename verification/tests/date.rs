use age_calc::date::{CalendarDate, MAX_YEAR, MIN_YEAR};

#[test]
fn from_ymd_opt_keeps_the_fields() {
    let d = CalendarDate::from_ymd_opt(2015, 3, 14).unwrap();
    assert_eq!(d, CalendarDate { year: 2015, month: 3, day: 14 });
}

#[test]
fn from_ymd_opt_refuses_days_that_do_not_exist() {
    assert!(CalendarDate::from_ymd_opt(2015, 0, 14).is_none());
    assert!(CalendarDate::from_ymd_opt(2015, 13, 14).is_none());
    assert!(CalendarDate::from_ymd_opt(2015, 3, 0).is_none());
    assert!(CalendarDate::from_ymd_opt(2015, 3, 32).is_none());
    assert!(CalendarDate::from_ymd_opt(2023, 4, 31).is_none());
    assert!(CalendarDate::from_ymd_opt(2023, 4, 30).is_some());
    assert!(CalendarDate::from_ymd_opt(2015, 2, 29).is_none());
    assert!(CalendarDate::from_ymd_opt(2015, 2, 28).is_some());
}

#[test]
fn leap_years_follow_the_gregorian_rule() {
    assert!(CalendarDate::from_ymd_opt(2024, 2, 29).is_some());
    assert!(CalendarDate::from_ymd_opt(2000, 2, 29).is_some());
    assert!(CalendarDate::from_ymd_opt(1900, 2, 29).is_none());
    assert!(CalendarDate::from_ymd_opt(2100, 2, 29).is_none());
    assert!(CalendarDate::from_ymd_opt(0, 2, 29).is_some());
    assert!(CalendarDate::from_ymd_opt(-4, 2, 29).is_some());
    assert!(CalendarDate::from_ymd_opt(-1, 2, 29).is_none());
    assert!(CalendarDate::from_ymd_opt(-100, 2, 29).is_none());
    assert!(CalendarDate::from_ymd_opt(-400, 2, 29).is_some());
    assert!(CalendarDate::from_ymd_opt(2024, 2, 30).is_none());
}

#[test]
fn years_out_of_range_are_refused() {
    assert_eq!(MIN_YEAR, -262143);
    assert_eq!(MAX_YEAR, 262142);
    assert!(CalendarDate::from_ymd_opt(262142, 12, 31).is_some());
    assert!(CalendarDate::from_ymd_opt(262143, 1, 1).is_none());
    assert!(CalendarDate::from_ymd_opt(-262143, 1, 1).is_some());
    assert!(CalendarDate::from_ymd_opt(-262144, 12, 31).is_none());
    assert!(CalendarDate::from_ymd_opt(400000, 1, 1).is_none());
    assert!(CalendarDate::from_ymd_opt(-400000, 1, 1).is_none());
    assert!(CalendarDate::from_ymd_opt(i32::MAX, 1, 1).is_none());
    assert!(CalendarDate::from_ymd_opt(i32::MIN, 1, 1).is_none());
}

#[test]
fn year_range_is_that_of_chrono() {
    assert_eq!(chrono::Datelike::year(&chrono::NaiveDate::MIN), MIN_YEAR);
    assert_eq!(chrono::Datelike::year(&chrono::NaiveDate::MAX), MAX_YEAR);
}

#[test]
fn validity_agrees_with_chrono() {
    let years: [i32; 16] = [
        -262144, -262143, -401, -400, -100, -4, -1, 0, 1, 1900, 1999, 2000, 2023, 2024, 262142,
        262143,
    ];
    for &year in years.iter() {
        let mut month: u32 = 0;
        while month <= 13 {
            let mut day: u32 = 0;
            while day <= 32 {
                let ours = CalendarDate::from_ymd_opt(year, month, day);
                let theirs = chrono::NaiveDate::from_ymd_opt(year, month, day);
                assert_eq!(ours.is_some(), theirs.is_some(), "{}-{}-{}", year, month, day);
                day += 1;
            }
            month += 1;
        }
    }
}

#[test]
fn month_and_day_order() {
    let a = CalendarDate::from_ymd_opt(2000, 3, 31).unwrap();
    let b = CalendarDate::from_ymd_opt(1990, 4, 1).unwrap();
    assert!(a.earlier_in_year(b));
    assert!(!b.earlier_in_year(a));
    assert!(!a.earlier_in_year(a));
    let c = CalendarDate::from_ymd_opt(1980, 3, 31).unwrap();
    assert!(a.same_month_and_day(c));
    assert!(!a.same_month_and_day(b));
}
