//! The time section of the date picker: the hour, minute and second spinners
//! and the AM/PM switch.
//!
//! The pending hour is kept on a 24-hour clock (0 to 23). In 12-hour mode the
//! spinner shows 12, 1, ..., 11 and steps within the current half of the day.

use crate::text::{decimal, decimal_string, zero_padded, zero_padded_string};
use vstd::prelude::*;

verus! {

/// The hour that the spinner shows for the pending hour `h`.
pub open spec fn hour_shown(h: int, is12: bool) -> int {
    if is12 {
        if h == 0 {
            12
        } else if h > 12 {
            h - 12
        } else {
            h
        }
    } else {
        h
    }
}

/// Largest hour the spinner shows.
pub open spec fn hour_top(is12: bool) -> int {
    if is12 {
        12
    } else {
        23
    }
}

/// Smallest hour the spinner shows.
pub open spec fn hour_bottom(is12: bool) -> int {
    if is12 {
        1
    } else {
        0
    }
}

/// The pending hour that a shown hour `shown` stands for, in the half of the
/// day of the pending hour `h`.
pub open spec fn hour_from_shown(shown: int, h: int, is12: bool) -> int {
    if is12 {
        if shown == 12 {
            if h < 12 {
                0
            } else {
                12
            }
        } else if h < 12 {
            shown
        } else {
            shown + 12
        }
    } else {
        shown
    }
}

/// The pending hour after the up arrow: the shown hour wraps from the top to
/// the bottom, else grows by `step`.
pub open spec fn hour_after_up(h: int, is12: bool, step: int) -> int {
    let shown = hour_shown(h, is12);
    let next = if shown >= hour_top(is12) {
        hour_bottom(is12)
    } else {
        shown + step
    };
    hour_from_shown(next, h, is12) % 24
}

/// The pending hour after the down arrow: the shown hour wraps from the
/// bottom to the top, else shrinks by `step`.
pub open spec fn hour_after_down(h: int, is12: bool, step: int) -> int {
    let shown = hour_shown(h, is12);
    let next = if shown <= hour_bottom(is12) {
        hour_top(is12)
    } else {
        shown - step
    };
    hour_from_shown(next, h, is12) % 24
}

/// The up arrow computes within `u32`.
pub open spec fn hour_up_fits(h: int, is12: bool, step: int) -> bool {
    let shown = hour_shown(h, is12);
    let next = shown + step;
    shown < hour_top(is12) ==> next <= u32::MAX && (is12 && h >= 12 && next != 12 ==> next + 12
        <= u32::MAX)
}

/// The down arrow does not go below zero.
pub open spec fn hour_down_fits(h: int, is12: bool, step: int) -> bool {
    let shown = hour_shown(h, is12);
    shown > hour_bottom(is12) ==> shown >= step
}

/// The hour the spinner shows.
pub fn display_hour(h: u32, is12: bool) -> (r: u32)
    ensures
        r == hour_shown(h as int, is12),
{
    if is12 {
        if h == 0 {
            12
        } else if h > 12 {
            h - 12
        } else {
            h
        }
    } else {
        h
    }
}

fn raw_hour(shown: u32, h: u32, is12: bool) -> (r: u32)
    requires
        is12 && h >= 12 && shown != 12 ==> shown + 12 <= u32::MAX,
    ensures
        r == hour_from_shown(shown as int, h as int, is12),
{
    if is12 {
        if shown == 12 {
            if h < 12 {
                0
            } else {
                12
            }
        } else if h < 12 {
            shown
        } else {
            shown + 12
        }
    } else {
        shown
    }
}

/// The pending hour after the hour spinner's up arrow.
pub fn hour_up(h: u32, is12: bool, step: u32) -> (r: u32)
    requires
        hour_up_fits(h as int, is12, step as int),
    ensures
        r == hour_after_up(h as int, is12, step as int),
        r < 24,
{
    let top: u32 = if is12 {
        12
    } else {
        23
    };
    let bottom: u32 = if is12 {
        1
    } else {
        0
    };
    let shown = display_hour(h, is12);
    let next = if shown >= top {
        bottom
    } else {
        shown + step
    };
    raw_hour(next, h, is12) % 24
}

/// The pending hour after the hour spinner's down arrow.
pub fn hour_down(h: u32, is12: bool, step: u32) -> (r: u32)
    requires
        hour_down_fits(h as int, is12, step as int),
    ensures
        r == hour_after_down(h as int, is12, step as int),
        r < 24,
{
    let top: u32 = if is12 {
        12
    } else {
        23
    };
    let bottom: u32 = if is12 {
        1
    } else {
        0
    };
    let shown = display_hour(h, is12);
    let next = if shown <= bottom {
        top
    } else {
        shown - step
    };
    raw_hour(next, h, is12) % 24
}

/// The minute (or second) after the up arrow: `(m + step) % 60`.
pub fn minute_up(m: u32, step: u32) -> (r: u32)
    requires
        m + step <= u32::MAX,
    ensures
        r == (m + step) % 60,
{
    (m + step) % 60
}

/// The minute (or second) after the down arrow: `m - step`, or `60 - step`
/// when `m` is below `step`.
pub fn minute_down(m: u32, step: u32) -> (r: u32)
    requires
        m < step ==> step <= 60,
    ensures
        r == if m < step {
            60 - step
        } else {
            m - step
        },
{
    if m < step {
        60 - step
    } else {
        m - step
    }
}

/// The pending hour after the AM/PM switch: the same hour in the other half
/// of the day.
pub fn toggle_meridiem(h: u32) -> (r: u32)
    requires
        h < 24,
    ensures
        r == (h + 12) % 24,
        (r < 12) != (h < 12),
{
    (h + 12) % 24
}

/// `"AM"` before noon, `"PM"` from noon.
pub fn meridiem_label(h: u32) -> (s: &'static str)
    ensures
        s@ == if h < 12 {
            "AM"@
        } else {
            "PM"@
        },
{
    if h < 12 {
        "AM"
    } else {
        "PM"
    }
}

/// The text of a spinner value: two digits when padded, else plain.
pub fn time_value_text(v: u32, pad: bool) -> (s: String)
    ensures
        s@ == if pad {
            zero_padded(v as nat, 2)
        } else {
            decimal(v as nat)
        },
{
    if pad {
        zero_padded_string(v as u64, 2)
    } else {
        decimal_string(v as u64)
    }
}

/// With a step of one, the hour spinner's down arrow undoes its up arrow.
pub proof fn lemma_hour_up_then_down(h: int, is12: bool)
    requires
        0 <= h < 24,
    ensures
        hour_after_down(hour_after_up(h, is12, 1), is12, 1) == h,
{
}

/// With a step of one, the minute spinner's down arrow undoes its up arrow.
pub proof fn lemma_minute_up_then_down(m: int)
    requires
        0 <= m < 60,
    ensures
        ({
            let up = (m + 1) % 60;
            (if up < 1 {
                60 - 1
            } else {
                up - 1
            }) == m
        }),
{
}

/// The minute spinner keeps a minute below 60 below 60, for every step up to
/// 60.
pub proof fn lemma_minute_stays_in_range(m: int, step: int)
    requires
        0 <= m < 60,
        0 <= step <= 60,
    ensures
        0 <= (m + step) % 60 < 60,
        0 <= (if m < step {
            60 - step
        } else {
            m - step
        }) < 60,
{
}

} // verus!
