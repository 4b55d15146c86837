use radzen_leptos::components::calendar::{
    after_commit, choose_month, choose_year, clear_button_style, click_day, date_input_class,
    date_picker_class, day_cell, formatted_value, has_value, initial_view, input_section,
    is_selected, is_twelve_hour, key_on_day, month_options, next_month, ok_date,
    popup_container_class, prev_month, time_parts, toggle_date, toggle_open, trigger_button_class,
    typed_date, view_after_typed, year_options, CalendarView, DayPick, TimePart, TypedDate,
};
use radzen_leptos::components::date_picker::{Date, DateRenderEventArgs};

fn d(year: i32, month: u32, day: u32) -> Date {
    Date { year, month, day }
}

fn view(open: bool, year: i32, month: u32) -> CalendarView {
    CalendarView { open, year, month }
}

#[test]
fn initial_view_prefers_initial_date() {
    let today = d(2025, 3, 10);
    assert_eq!(initial_view(Some(d(2020, 1, 1)), Some(d(2021, 2, 2)), today, false), view(false, 2020, 1));
    assert_eq!(initial_view(None, Some(d(2021, 2, 2)), today, true), view(true, 2021, 2));
    assert_eq!(initial_view(None, None, today, false), view(false, 2025, 3));
}

#[test]
fn trigger_opens_on_value_month_and_closes() {
    let today = d(2025, 3, 10);
    let v = view(false, 2000, 1);
    let opened = toggle_open(v, false, false, false, Some(d(2024, 7, 4)), today);
    assert_eq!(opened, view(true, 2024, 7));
    assert_eq!(toggle_open(opened, false, false, false, None, today), view(false, 2024, 7));
    assert_eq!(toggle_open(v, false, true, false, None, today), v);
    assert_eq!(toggle_open(v, true, false, false, None, today), v);
}

#[test]
fn commit_closes_popup_only() {
    assert_eq!(after_commit(view(true, 2024, 1), false), view(false, 2024, 1));
    assert_eq!(after_commit(view(true, 2024, 1), true), view(true, 2024, 1));
}

#[test]
fn month_navigation_respects_year_range() {
    assert_eq!(prev_month(view(true, 2024, 1), false, 1900), view(true, 2023, 12));
    assert_eq!(prev_month(view(true, 1900, 1), false, 1900), view(true, 1900, 1));
    assert_eq!(next_month(view(true, 2024, 12), false, 2100), view(true, 2025, 1));
    assert_eq!(next_month(view(true, 2100, 12), false, 2100), view(true, 2100, 12));
    assert_eq!(next_month(view(true, 2024, 5), true, 2100), view(true, 2024, 5));
}

#[test]
fn typed_text_outcomes() {
    assert_eq!(typed_date("   "), TypedDate::Clear);
    assert_eq!(typed_date("2024-02-29"), TypedDate::Select(d(2024, 2, 29)));
    assert_eq!(typed_date("2023-02-29"), TypedDate::Keep);
    let v = view(true, 2000, 1);
    assert_eq!(view_after_typed(v, false, TypedDate::Select(d(2024, 2, 29))), view(false, 2024, 2));
    assert_eq!(view_after_typed(v, false, TypedDate::Keep), v);
    assert_eq!(view_after_typed(v, true, TypedDate::Clear), v);
}

#[test]
fn shown_text_of_several_dates() {
    let dates = vec![d(2024, 1, 2), d(2024, 3, 4)];
    assert_eq!(formatted_value(true, &dates, None, "M/d/yyyy"), "1/2/2024, 3/4/2024");
    assert_eq!(formatted_value(true, &Vec::new(), None, "M/d/yyyy"), "");
    assert_eq!(formatted_value(false, &dates, Some(d(2024, 5, 6)), "yyyy-MM-dd"), "2024-05-06");
    assert_eq!(formatted_value(false, &dates, None, "yyyy"), "");
}

#[test]
fn selection_and_value() {
    let dates = vec![d(2024, 1, 2)];
    assert!(is_selected(d(2024, 1, 2), true, &dates, None));
    assert!(!is_selected(d(2024, 1, 2), false, &dates, None));
    assert!(is_selected(d(2024, 1, 2), false, &dates, Some(d(2024, 1, 2))));
    assert!(has_value(true, &dates, None));
    assert!(!has_value(false, &dates, None));
}

#[test]
fn day_cells() {
    let v = view(true, 2024, 2);
    let today = d(2024, 2, 10);
    let plain = DateRenderEventArgs { date: d(2024, 2, 10), disabled: false, attributes: None };
    let c = day_cell(d(2024, 2, 10), v, &plain, None, None, false, today, true);
    assert!(c.in_month && !c.disabled && c.selected);
    assert_eq!(c.tab_index, 0);
    assert_eq!(c.td_class, "");
    assert_eq!(c.span_class, "rz-state-default rz-state-active rz-datepicker-today");

    let marked = DateRenderEventArgs {
        date: d(2024, 1, 31),
        disabled: false,
        attributes: Some("holiday".to_string()),
    };
    let o = day_cell(d(2024, 1, 31), v, &marked, None, None, false, today, false);
    assert!(!o.in_month);
    assert_eq!(o.tab_index, -1);
    assert_eq!(o.td_class, "rz-datepicker-other-month holiday");
    assert_eq!(o.span_class, "rz-state-default rz-state-disabled");

    let m = day_cell(d(2024, 2, 5), v, &plain, Some(d(2024, 2, 6)), None, false, today, false);
    assert!(m.disabled);
    assert_eq!(m.span_class, "rz-state-default rz-state-disabled");
    let x = day_cell(d(2024, 2, 7), v, &plain, None, Some(d(2024, 2, 6)), false, today, false);
    assert!(x.disabled);
}

#[test]
fn clicking_days() {
    let mut dates = vec![d(2024, 1, 2)];
    let r = click_day(d(2024, 1, 3), false, true, false, false, true, true, &mut dates);
    assert_eq!(r, DayPick::Toggled(Some(d(2024, 1, 2))));
    assert_eq!(dates, vec![d(2024, 1, 2), d(2024, 1, 3)]);
    let r = click_day(d(2024, 1, 2), false, true, true, false, true, true, &mut dates);
    assert_eq!(r, DayPick::Toggled(Some(d(2024, 1, 3))));
    assert_eq!(dates, vec![d(2024, 1, 3)]);

    let mut none: Vec<Date> = Vec::new();
    assert_eq!(click_day(d(2024, 1, 3), false, true, true, false, false, true, &mut none), DayPick::Commit(None));
    assert_eq!(click_day(d(2024, 1, 3), false, true, true, false, false, false, &mut none), DayPick::Commit(Some(d(2024, 1, 3))));
    assert_eq!(click_day(d(2024, 1, 3), true, true, false, false, false, false, &mut none), DayPick::Ignore);
    assert_eq!(click_day(d(2024, 1, 3), false, false, false, false, false, false, &mut none), DayPick::Ignore);
    assert_eq!(click_day(d(2024, 1, 3), false, true, false, true, false, false, &mut none), DayPick::Ignore);
}

#[test]
fn toggling_twice_restores_selection() {
    let mut dates = vec![d(2024, 1, 2)];
    toggle_date(&mut dates, d(2024, 5, 5));
    toggle_date(&mut dates, d(2024, 5, 5));
    assert_eq!(dates, vec![d(2024, 1, 2)]);
}

#[test]
fn keys_on_days() {
    assert_eq!(key_on_day("Enter", d(2024, 1, 3), false, true, false, false, false), (true, DayPick::Commit(Some(d(2024, 1, 3)))));
    assert_eq!(key_on_day(" ", d(2024, 1, 3), true, true, false, false, false), (true, DayPick::Ignore));
    assert_eq!(key_on_day("a", d(2024, 1, 3), false, true, false, false, false), (false, DayPick::Ignore));
    assert_eq!(key_on_day("Enter", d(2024, 1, 3), false, true, false, true, false), (true, DayPick::Ignore));
}

#[test]
fn year_and_month_lists() {
    assert_eq!(year_options(2020, 2023), vec![2020, 2021, 2022, 2023]);
    assert!(year_options(2023, 2020).is_empty());
    assert_eq!(year_options(i32::MAX, i32::MAX), vec![i32::MAX]);
    let months = month_options();
    assert_eq!(months.len(), 12);
    assert_eq!(months[0], (1, "Jan"));
    assert_eq!(months[11], (12, "Dec"));
}

#[test]
fn choosing_from_lists() {
    let v = view(true, 2024, 1);
    assert_eq!(choose_month(v, "7"), view(true, 2024, 7));
    assert_eq!(choose_month(v, "x"), v);
    assert_eq!(choose_year(v, "-5"), view(true, -5, 1));
}

#[test]
fn classes_of_parts() {
    assert_eq!(date_picker_class(true, true, "x"), "rz-datepicker rz-datepicker-inline rz-state-disabled x");
    assert_eq!(date_picker_class(false, false, ""), "rz-datepicker");
    assert_eq!(date_input_class(false, true), "rz-inputtext rz-input-trigger rz-readonly");
    assert_eq!(
        trigger_button_class(true, true, "extra"),
        "rz-datepicker-trigger rz-datepicker-field-button rz-button rz-button-icon-only rz-state-disabled extra"
    );
    assert_eq!(trigger_button_class(false, false, ""), "rz-datepicker-trigger rz-button rz-button-icon-only");
    assert_eq!(popup_container_class(true), "rz-datepicker-inline-container");
    assert_eq!(clear_button_style(false), "display:none");
}

#[test]
fn input_row() {
    let s = input_section(false, false, true, false, false, true, 3, "");
    assert!(s.show_input && !s.show_button && s.show_clear && s.read_only && s.input_opens);
    assert_eq!(s.tab_index, -1);
    assert_eq!(s.input_class, "rz-inputtext rz-input-trigger");
}

#[test]
fn time_section_layout() {
    assert_eq!(
        time_parts(true, true, true, true, true),
        vec![TimePart::Hour, TimePart::Separator, TimePart::Minute, TimePart::Separator, TimePart::Second, TimePart::Meridiem, TimePart::OkButton]
    );
    assert_eq!(time_parts(false, true, false, false, false), vec![TimePart::Minute]);
    assert!(is_twelve_hour("12"));
    assert!(!is_twelve_hour("24"));
}

#[test]
fn ok_commits_value_or_today() {
    assert_eq!(ok_date(None, d(2024, 1, 1)), d(2024, 1, 1));
    assert_eq!(ok_date(Some(d(2020, 2, 2)), d(2024, 1, 1)), d(2020, 2, 2));
}
