use scrapbox_journal::calendar::LocalDate;
use scrapbox_journal::title::{
    generate_daily_title, generate_title, generate_weekly_title, weekday_name, PeriodKind,
};

fn date(year: i32, month: u32, day: u32) -> LocalDate {
    LocalDate::new(year, month, day).unwrap()
}

#[test]
fn daily_title_of_a_wednesday_ends_in_wed() {
    let title = generate_daily_title(date(2024, 1, 3));
    assert_eq!(title, "2024/1/3 (Wed)");
    assert!(title.ends_with("(Wed)"));
}

#[test]
fn daily_title_names_each_day_of_a_week() {
    let expected = [
        "2023/12/31 (Sun)",
        "2024/1/1 (Mon)",
        "2024/1/2 (Tue)",
        "2024/1/3 (Wed)",
        "2024/1/4 (Thu)",
        "2024/1/5 (Fri)",
        "2024/1/6 (Sat)",
    ];
    let mut day = date(2023, 12, 31);
    for title in expected {
        assert_eq!(generate_daily_title(day), title);
        day = day.plus_days(1).unwrap();
    }
}

#[test]
fn daily_title_has_no_leading_zeros() {
    assert_eq!(generate_daily_title(date(2021, 3, 7)), "2021/3/7 (Sun)");
    assert_eq!(generate_daily_title(date(2021, 10, 10)), "2021/10/10 (Sun)");
}

#[test]
fn daily_title_is_the_same_on_every_call() {
    let first = generate_daily_title(date(2022, 8, 15));
    let second = generate_daily_title(date(2022, 8, 15));
    assert_eq!(first, second);
    assert_eq!(first, "2022/8/15 (Mon)");
}

#[test]
fn daily_title_of_a_leap_day() {
    assert_eq!(generate_daily_title(date(2024, 2, 29)), "2024/2/29 (Thu)");
    assert_eq!(generate_daily_title(date(2000, 2, 29)), "2000/2/29 (Tue)");
}

#[test]
fn daily_title_of_years_far_from_today() {
    assert_eq!(generate_daily_title(date(1, 1, 1)), "1/1/1 (Mon)");
    assert_eq!(generate_daily_title(date(0, 12, 31)), "0/12/31 (Sun)");
    assert_eq!(generate_daily_title(date(-308, 3, 14)), "-308/3/14 (Fri)");
    assert_eq!(generate_daily_title(date(262142, 12, 25)), "262142/12/25 (Tue)");
    assert_eq!(generate_daily_title(date(262142, 12, 31)), "262142/12/31 (Mon)");
    assert_eq!(generate_daily_title(date(-262143, 1, 1)), "-262143/1/1 (Thu)");
}

#[test]
fn weekly_title_within_a_month() {
    assert_eq!(generate_weekly_title(date(2024, 1, 8)), "2024/1/8 ~ 2024/1/14");
}

#[test]
fn weekly_title_rolls_into_the_next_month() {
    assert_eq!(generate_weekly_title(date(2024, 1, 29)), "2024/1/29 ~ 2024/2/4");
    assert_eq!(generate_weekly_title(date(2023, 4, 30)), "2023/4/30 ~ 2023/5/6");
}

#[test]
fn weekly_title_rolls_into_the_next_year() {
    assert_eq!(generate_weekly_title(date(2023, 12, 28)), "2023/12/28 ~ 2024/1/3");
}

#[test]
fn weekly_title_across_february() {
    assert_eq!(generate_weekly_title(date(2024, 2, 26)), "2024/2/26 ~ 2024/3/3");
    assert_eq!(generate_weekly_title(date(2023, 2, 26)), "2023/2/26 ~ 2023/3/4");
    assert_eq!(generate_weekly_title(date(1900, 2, 26)), "1900/2/26 ~ 1900/3/4");
}

#[test]
fn generate_title_follows_the_kind() {
    let day = date(2024, 1, 29);
    assert_eq!(generate_title(PeriodKind::Daily, day), "2024/1/29 (Mon)");
    assert_eq!(generate_title(PeriodKind::Weekly, day), "2024/1/29 ~ 2024/2/4");
}

#[test]
fn weekly_title_of_the_last_weeks_of_the_last_year() {
    assert_eq!(
        generate_weekly_title(date(262142, 12, 25)),
        "262142/12/25 ~ 262142/12/31"
    );
    assert_eq!(
        generate_weekly_title(date(262142, 12, 26)),
        "262142/12/26 ~ 262143/1/1"
    );
    assert_eq!(
        generate_weekly_title(date(262142, 12, 31)),
        "262142/12/31 ~ 262143/1/6"
    );
    assert_eq!(
        generate_weekly_title(date(262142, 2, 25)),
        "262142/2/25 ~ 262142/3/3"
    );
}

#[test]
fn titles_of_different_periods_differ() {
    let days = [date(2024, 1, 3), date(2024, 1, 4), date(2024, 11, 1), date(2024, 1, 11)];
    let mut titles = Vec::new();
    for day in days {
        titles.push(generate_title(PeriodKind::Daily, day));
        titles.push(generate_title(PeriodKind::Weekly, day));
    }
    for (i, a) in titles.iter().enumerate() {
        for (j, b) in titles.iter().enumerate() {
            assert_eq!(a == b, i == j);
        }
    }
}

#[test]
fn weekday_names_count_from_sunday() {
    let names: Vec<&str> = (0..7).map(weekday_name).collect();
    assert_eq!(names, vec!["Sun", "Mon", "Tue", "Wed", "Thu", "Fri", "Sat"]);
}
