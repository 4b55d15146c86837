use radzen_leptos::components::date_picker::{
    build_calendar_weeks, calendar_weeks, format_date_str, is_before, week_number,
    month_abbr, month_name_full, parse_date_input, parse_year_range, Date,
};

fn d(year: i32, month: u32, day: u32) -> Date {
    Date { year, month, day }
}

#[test]
fn formats_with_default_format() {
    assert_eq!(format_date_str(d(2025, 6, 5), "M/d/yyyy"), "6/5/2025");
}

#[test]
fn formats_padded_tokens() {
    assert_eq!(format_date_str(d(2025, 6, 5), "dd.MM.yy"), "05.06.25");
    assert_eq!(format_date_str(d(7, 1, 1), "yyyy"), "0007");
}

#[test]
fn formats_month_names() {
    assert_eq!(format_date_str(d(2025, 6, 5), "MMMM d, yyyy"), "June 5, 2025");
    assert_eq!(format_date_str(d(2025, 6, 5), "d MMM"), "5 Jun");
}

#[test]
fn month_names_are_not_read_again() {
    assert_eq!(format_date_str(d(2024, 5, 1), "MMMM"), "May");
    assert_eq!(format_date_str(d(2024, 3, 5), "MMMM d, yyyy"), "March 5, 2024");
    assert_eq!(format_date_str(d(2024, 3, 5), "M/d/yyyy"), "3/5/2024");
    assert_eq!(format_date_str(d(2024, 3, 5), "dd.MM.yy"), "05.03.24");
    assert_eq!(format_date_str(d(2024, 12, 9), "d MMM yyyy"), "9 Dec 2024");
}

#[test]
fn longest_token_is_taken_first() {
    assert_eq!(format_date_str(d(2024, 3, 5), "yyy"), "24y");
    assert_eq!(format_date_str(d(2024, 3, 5), "MMMMM"), "March3");
    assert_eq!(format_date_str(d(2024, 3, 5), "ddd"), "055");
}

#[test]
fn month_names() {
    assert_eq!(month_name_full(12), "December");
    assert_eq!(month_abbr(9), "Sep");
}

#[test]
fn parses_iso_and_us_dates() {
    assert_eq!(parse_date_input("2025-06-15"), Some(d(2025, 6, 15)));
    assert_eq!(parse_date_input(" 06/15/2025 "), Some(d(2025, 6, 15)));
}

#[test]
fn parses_day_first_when_month_first_fails() {
    assert_eq!(parse_date_input("15/06/2025"), Some(d(2025, 6, 15)));
    assert_eq!(parse_date_input("15.06.2025"), Some(d(2025, 6, 15)));
}

#[test]
fn rejects_other_text() {
    assert_eq!(parse_date_input("garbage"), None);
    assert_eq!(parse_date_input(""), None);
}

#[test]
fn year_ranges() {
    assert_eq!(parse_year_range("1900:2100"), (1900, 2100));
    assert_eq!(parse_year_range("2000"), (2000, 2100));
    assert_eq!(parse_year_range("x:y"), (1900, 2100));
    assert_eq!(parse_year_range(""), (1900, 2100));
    assert_eq!(parse_year_range("1990:abc"), (1990, 2100));
}

#[test]
fn iso_weeks() {
    assert_eq!(week_number(&vec![d(2021, 1, 1)]), 53);
    assert_eq!(week_number(&vec![d(2024, 1, 1), d(2024, 1, 2)]), 1);
    let weeks = build_calendar_weeks(2024, 2);
    assert_eq!(week_number(&weeks[0]), 4);
}

#[test]
fn month_grid_starts_on_sunday() {
    let weeks = build_calendar_weeks(2024, 2);
    assert_eq!(weeks.len(), 6);
    assert!(weeks.iter().all(|w| w.len() == 7));
    assert_eq!(weeks[0][0], d(2024, 1, 28));
    assert_eq!(weeks[0][4], d(2024, 2, 1));
    assert_eq!(weeks[5][6], d(2024, 3, 9));
}

#[test]
fn grid_outside_chrono_range_is_none() {
    assert!(calendar_weeks(2024, 13).is_none());
    assert!(calendar_weeks(i32::MAX, 1).is_none());
    assert!(calendar_weeks(2024, 2).is_some());
}

#[test]
fn chronological_order() {
    assert!(is_before(d(2024, 12, 31), d(2025, 1, 1)));
    assert!(!is_before(d(2025, 1, 1), d(2025, 1, 1)));
    assert!(is_before(d(2025, 1, 1), d(2025, 1, 2)));
}

#[test]
fn month_grid_holds_every_day_of_the_month() {
    // 2024-02-01 is a Thursday: day d stands at position 4 + d - 1.
    let weeks = build_calendar_weeks(2024, 2);
    for day in 1..=29u32 {
        let k = (4 + day - 1) as usize;
        assert_eq!(weeks[k / 7][k % 7], d(2024, 2, day));
    }
}

#[test]
fn month_grid_runs_day_after_day_across_years() {
    // December 2024 starts on a Sunday; its grid runs into January 2025.
    let weeks = build_calendar_weeks(2024, 12);
    assert_eq!(weeks[0][0], d(2024, 12, 1));
    assert_eq!(weeks[4][2], d(2024, 12, 31));
    assert_eq!(weeks[4][3], d(2025, 1, 1));
    assert_eq!(weeks[5][6], d(2025, 1, 11));
}

#[test]
fn month_grid_near_the_ends_of_chrono_range() {
    assert!(calendar_weeks(-262143, 1).is_none());
    assert!(calendar_weeks(-262142, 1).is_some());
    assert!(calendar_weeks(262141, 12).is_some());
    assert!(calendar_weeks(262142, 12).is_none());
}
