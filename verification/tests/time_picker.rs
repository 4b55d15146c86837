use radzen_leptos::components::time_picker::{
    display_hour, hour_down, hour_up, meridiem_label, minute_down, minute_up, time_value_text,
    toggle_meridiem,
};

#[test]
fn twenty_four_hour_spinner_wraps() {
    assert_eq!(hour_up(23, false, 1), 0);
    assert_eq!(hour_up(5, false, 2), 7);
    assert_eq!(hour_down(0, false, 1), 23);
    assert_eq!(hour_down(5, false, 2), 3);
}

#[test]
fn twelve_hour_spinner_stays_in_its_half() {
    assert_eq!(display_hour(0, true), 12);
    assert_eq!(display_hour(15, true), 3);
    assert_eq!(hour_up(11, true, 1), 0);
    assert_eq!(hour_up(12, true, 1), 13);
    assert_eq!(hour_down(0, true, 1), 11);
    assert_eq!(hour_down(13, true, 1), 12);
}

#[test]
fn up_then_down_gives_the_hour_back() {
    for h in 0..24 {
        assert_eq!(hour_down(hour_up(h, true, 1), true, 1), h);
        assert_eq!(hour_down(hour_up(h, false, 1), false, 1), h);
    }
}

#[test]
fn minutes_wrap() {
    assert_eq!(minute_up(59, 1), 0);
    assert_eq!(minute_up(50, 15), 5);
    assert_eq!(minute_down(0, 5), 55);
    assert_eq!(minute_down(10, 5), 5);
}

#[test]
fn meridiem() {
    assert_eq!(toggle_meridiem(3), 15);
    assert_eq!(toggle_meridiem(15), 3);
    assert_eq!(meridiem_label(11), "AM");
    assert_eq!(meridiem_label(12), "PM");
}

#[test]
fn spinner_text() {
    assert_eq!(time_value_text(5, true), "05");
    assert_eq!(time_value_text(5, false), "5");
}
