use rical::date::{DateOrder, InvalidDate, RicalDate};
use rical::grid::{
    calendar_grid_navigation, checked_grid_navigation, get_calendar_frame, get_days_in_month,
    GridDirection, is_month_in_span, next_month, OUTSIDE_MONTH,
};

fn date(year: i32, month: u32, day: u32) -> RicalDate {
    RicalDate::new(year, month, day).unwrap()
}

#[test]
fn new_accepts_real_dates() {
    assert_eq!(RicalDate::new(2025, 8, 7), Ok(RicalDate { year: 2025, month: 8, day: 7 }));
    assert!(RicalDate::new(2024, 2, 29).is_ok());
    assert!(RicalDate::new(2000, 2, 29).is_ok());
    assert!(RicalDate::new(-4, 2, 29).is_ok());
    assert!(RicalDate::new(2025, 12, 31).is_ok());
    assert!(RicalDate::new(2025, 1, 1).is_ok());
}

#[test]
fn new_rejects_what_the_calendar_lacks() {
    assert_eq!(RicalDate::new(2025, 0, 1), Err(InvalidDate { year: 2025, month: 0, day: 1 }));
    assert!(RicalDate::new(2025, 13, 1).is_err());
    assert!(RicalDate::new(2025, 1, 0).is_err());
    assert!(RicalDate::new(2025, 1, 32).is_err());
    assert!(RicalDate::new(2025, 4, 31).is_err());
    assert!(RicalDate::new(2025, 2, 29).is_err());
    assert!(RicalDate::new(1900, 2, 29).is_err());
    assert!(RicalDate::new(2100, 2, 29).is_err());
}

#[test]
fn new_follows_the_length_of_every_month() {
    let lengths = [31, 28, 31, 30, 31, 30, 31, 31, 30, 31, 30, 31];
    for year in [1999, 2000, 2023, 2024, 2100] {
        let leap = (year % 4 == 0 && year % 100 != 0) || year % 400 == 0;
        for month in 1..=12u32 {
            let mut length = lengths[month as usize - 1];
            if month == 2 && leap {
                length = 29;
            }
            for day in 0..=33u32 {
                let made = RicalDate::new(year, month, day);
                assert_eq!(made.is_ok(), 1 <= day && day <= length, "{year}/{month}/{day}");
            }
        }
    }
}

#[test]
fn new_keeps_to_the_supported_years() {
    assert!(RicalDate::new(262142, 12, 31).is_ok());
    assert!(RicalDate::new(262143, 1, 1).is_err());
    assert!(RicalDate::new(-262143, 1, 1).is_ok());
    assert!(RicalDate::new(-262144, 12, 31).is_err());
    assert!(RicalDate::new(300000, 1, 1).is_err());
}

#[test]
fn today_is_a_date() {
    let today = RicalDate::today().unwrap();
    assert!(today.year >= 2024);
    assert_eq!(RicalDate::new(today.year, today.month, today.day), Ok(today));
}

#[test]
fn add_days_crosses_months_and_years() {
    assert_eq!(date(2025, 8, 7).add_days(0), date(2025, 8, 7));
    assert_eq!(date(2025, 8, 7).add_days(1), date(2025, 8, 8));
    assert_eq!(date(2025, 8, 31).add_days(1), date(2025, 9, 1));
    assert_eq!(date(2025, 12, 31).add_days(1), date(2026, 1, 1));
    assert_eq!(date(2024, 2, 28).add_days(1), date(2024, 2, 29));
    assert_eq!(date(2025, 2, 28).add_days(1), date(2025, 3, 1));
    assert_eq!(date(2022, 2, 20).add_days(9), date(2022, 3, 1));
    assert_eq!(date(2010, 1, 1).add_days(365 * 4 + 1), date(2014, 1, 1));
    assert_eq!(date(1614, 1, 1).add_days(365 * 400 + 97), date(2014, 1, 1));
}

#[test]
fn sub_days_crosses_months_and_years() {
    assert_eq!(date(2025, 8, 7).sub_days(0), date(2025, 8, 7));
    assert_eq!(date(2025, 9, 1).sub_days(1), date(2025, 8, 31));
    assert_eq!(date(2026, 1, 1).sub_days(1), date(2025, 12, 31));
    assert_eq!(date(2024, 3, 1).sub_days(1), date(2024, 2, 29));
    assert_eq!(date(2025, 3, 1).sub_days(1), date(2025, 2, 28));
    assert_eq!(date(2022, 2, 20).sub_days(6), date(2022, 2, 14));
    assert_eq!(date(2014, 1, 1).sub_days(365), date(2013, 1, 1));
}

#[test]
fn checked_days_stop_at_the_ends_of_the_calendar() {
    let last = date(262142, 12, 31);
    let first = date(-262143, 1, 1);
    assert_eq!(last.checked_add_days(1), None);
    assert_eq!(last.checked_add_days(0), Some(last));
    assert_eq!(first.checked_sub_days(1), None);
    assert_eq!(first.checked_add_days(1), Some(date(-262143, 1, 2)));
    assert_eq!(date(2022, 7, 31).checked_add_days(1000000000000), None);
    assert_eq!(date(2022, 7, 31).checked_sub_days(u64::MAX), None);
    assert_eq!(date(2022, 7, 31).checked_add_days(2), Some(date(2022, 8, 2)));
}

#[test]
fn weekday_counts_from_sunday() {
    assert_eq!(date(2025, 8, 7).weekday(), 4);
    assert_eq!(date(2025, 8, 3).weekday(), 0);
    assert_eq!(date(2025, 8, 9).weekday(), 6);
    assert_eq!(date(1, 1, 1).weekday(), 1);
    assert_eq!(date(2000, 1, 1).weekday(), 6);
    assert_eq!(date(-308, 3, 14).weekday(), 5);
}

#[test]
fn weekday_name_is_english() {
    assert_eq!(date(2025, 8, 3).weekday_name(), "Sunday");
    assert_eq!(date(2025, 8, 4).weekday_name(), "Monday");
    assert_eq!(date(2025, 8, 5).weekday_name(), "Tuesday");
    assert_eq!(date(2025, 8, 6).weekday_name(), "Wednesday");
    assert_eq!(date(2025, 8, 7).weekday_name(), "Thursday");
    assert_eq!(date(2025, 8, 8).weekday_name(), "Friday");
    assert_eq!(date(2025, 8, 9).weekday_name(), "Saturday");
}

#[test]
fn format_pads_month_and_day() {
    assert_eq!(date(2025, 8, 7).format(), "2025/08/07");
    assert_eq!(date(2025, 12, 31).format(), "2025/12/31");
    assert_eq!(date(987, 1, 10).format(), "987/01/10");
    assert_eq!(date(-44, 3, 15).format(), "-44/03/15");
}

#[test]
fn compare_orders_by_year_month_day() {
    assert_eq!(date(2025, 8, 7).compare(&date(2025, 8, 7)), DateOrder::Equal);
    assert_eq!(date(2025, 8, 7).compare(&date(2025, 8, 8)), DateOrder::Less);
    assert_eq!(date(2025, 8, 7).compare(&date(2025, 9, 1)), DateOrder::Less);
    assert_eq!(date(2025, 8, 7).compare(&date(2026, 1, 1)), DateOrder::Less);
    assert_eq!(date(2025, 8, 7).compare(&date(2025, 8, 6)), DateOrder::Greater);
    assert_eq!(date(2025, 8, 7).compare(&date(2025, 7, 31)), DateOrder::Greater);
    assert_eq!(date(2025, 8, 7).compare(&date(2024, 12, 31)), DateOrder::Greater);
    assert!(date(2025, 8, 7) < date(2025, 8, 8));
    assert!(date(2025, 8, 7) > date(2024, 12, 31));
}

#[test]
fn compare_agrees_with_the_passing_of_days() {
    let start = date(2023, 12, 25);
    for ahead in 0..800u64 {
        let later = start.add_days(ahead);
        let expected = if ahead == 0 { DateOrder::Equal } else { DateOrder::Less };
        assert_eq!(start.compare(&later), expected);
        if ahead > 0 {
            assert_eq!(later.compare(&start), DateOrder::Greater);
        }
    }
}

#[test]
fn next_month_rolls_over_december() {
    assert_eq!(next_month(2025, 8), (2025, 9));
    assert_eq!(next_month(2025, 12), (2026, 1));
    assert_eq!(next_month(2025, 1), (2025, 2));
    assert_eq!(next_month(-1, 12), (0, 1));
}

#[test]
fn days_in_month_by_distance() {
    assert_eq!(get_days_in_month(2025, 8), 31);
    assert_eq!(get_days_in_month(2025, 9), 30);
    assert_eq!(get_days_in_month(2025, 12), 31);
    assert_eq!(get_days_in_month(2025, 2), 28);
    assert_eq!(get_days_in_month(2024, 2), 29);
    assert_eq!(get_days_in_month(1900, 2), 28);
    assert_eq!(get_days_in_month(2000, 2), 29);
}

#[test]
fn month_in_span_leaves_out_the_last_december() {
    assert!(is_month_in_span(2025, 8));
    assert!(is_month_in_span(262142, 11));
    assert!(!is_month_in_span(262142, 12));
    assert!(!is_month_in_span(2025, 0));
    assert!(!is_month_in_span(2025, 13));
    assert!(!is_month_in_span(262143, 1));
    assert!(is_month_in_span(-262143, 1));
    assert!(!is_month_in_span(-262144, 1));
}

#[test]
fn navigation_steps_by_days_and_weeks() {
    let start = date(2025, 8, 7);
    assert_eq!(calendar_grid_navigation(&start, GridDirection::Left), date(2025, 8, 6));
    assert_eq!(calendar_grid_navigation(&start, GridDirection::Right), date(2025, 8, 8));
    assert_eq!(calendar_grid_navigation(&start, GridDirection::Up), date(2025, 7, 31));
    assert_eq!(calendar_grid_navigation(&start, GridDirection::Down), date(2025, 8, 14));
    assert_eq!(
        calendar_grid_navigation(&date(2025, 12, 28), GridDirection::Down),
        date(2026, 1, 4)
    );
    assert_eq!(
        calendar_grid_navigation(&date(2024, 3, 1), GridDirection::Left),
        date(2024, 2, 29)
    );
}

#[test]
fn navigation_round_trips() {
    let pairs = [
        (GridDirection::Left, GridDirection::Right),
        (GridDirection::Right, GridDirection::Left),
        (GridDirection::Up, GridDirection::Down),
        (GridDirection::Down, GridDirection::Up),
    ];
    let mut day = date(2023, 12, 20);
    for _ in 0..800 {
        for (there, back) in pairs {
            let arrival = calendar_grid_navigation(&day, there);
            assert_eq!(calendar_grid_navigation(&arrival, back), day);
        }
        day = day.add_days(1);
    }
}

#[test]
fn checked_navigation_stops_at_the_ends() {
    let last = date(262142, 12, 31);
    let first = date(-262143, 1, 1);
    assert_eq!(checked_grid_navigation(&last, GridDirection::Right), None);
    assert_eq!(checked_grid_navigation(&last, GridDirection::Down), None);
    assert_eq!(checked_grid_navigation(&last, GridDirection::Left), Some(date(262142, 12, 30)));
    assert_eq!(checked_grid_navigation(&first, GridDirection::Left), None);
    assert_eq!(checked_grid_navigation(&first, GridDirection::Up), None);
    assert_eq!(checked_grid_navigation(&date(-262143, 1, 7), GridDirection::Up), None);
    assert_eq!(checked_grid_navigation(&date(-262143, 1, 8), GridDirection::Up), Some(first));
    assert_eq!(
        checked_grid_navigation(&date(2025, 8, 7), GridDirection::Up),
        Some(date(2025, 7, 31))
    );
}

#[test]
fn frame_of_august_2025() {
    let x = OUTSIDE_MONTH;
    let expected = vec![
        vec![x, x, x, x, x, 1, 2],
        vec![3, 4, 5, 6, 7, 8, 9],
        vec![10, 11, 12, 13, 14, 15, 16],
        vec![17, 18, 19, 20, 21, 22, 23],
        vec![24, 25, 26, 27, 28, 29, 30],
        vec![31, x, x, x, x, x, x],
    ];
    assert_eq!(get_calendar_frame(2025, 8), expected);
    assert_eq!(OUTSIDE_MONTH, -1);
}

#[test]
fn frame_of_a_february_of_four_weeks() {
    let expected = vec![
        vec![1, 2, 3, 4, 5, 6, 7],
        vec![8, 9, 10, 11, 12, 13, 14],
        vec![15, 16, 17, 18, 19, 20, 21],
        vec![22, 23, 24, 25, 26, 27, 28],
    ];
    assert_eq!(get_calendar_frame(2026, 2), expected);
}

#[test]
fn frame_of_a_leap_february() {
    let x = OUTSIDE_MONTH;
    let frame = get_calendar_frame(2024, 2);
    assert_eq!(frame.len(), 5);
    assert_eq!(frame[0], vec![x, x, x, x, 1, 2, 3]);
    assert_eq!(frame[4], vec![25, 26, 27, 28, 29, x, x]);
}

#[test]
fn frame_holds_each_day_once_in_its_weekday_column() {
    for year in 1995..=2035 {
        for month in 1..=12u32 {
            let frame = get_calendar_frame(year, month);
            let days = get_days_in_month(year, month);
            assert!(4 <= frame.len() && frame.len() <= 6);
            let mut expected: i32 = 1;
            for row in &frame {
                assert_eq!(row.len(), 7);
                for (column, cell) in row.iter().enumerate() {
                    if *cell == OUTSIDE_MONTH {
                        continue;
                    }
                    assert_eq!(*cell, expected);
                    let weekday = date(year, month, *cell as u32).weekday();
                    assert_eq!(column as u32, weekday);
                    expected += 1;
                }
            }
            assert_eq!(expected as u32, days + 1);
        }
    }
}
