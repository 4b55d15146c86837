//! What the date picker does on its events: opening and closing the calendar,
//! moving between months, reading a typed date, picking days, and the classes
//! of its parts.

use crate::components::date_picker::{
    date_before, first_parsed, format_date, format_date_str, input_formats, month_abbr,
    month_short_name, parse_date_input, valid_date, Date, DateRenderEventArgs,
};
use crate::components::renderer::class_list::{
    class_if, class_string, lemma_add_class_if, lemma_created,
};
use crate::components::selection::{lemma_first_position, toggled};
use crate::components::ClassList;
use crate::text::{
    join_sep, parse_int, parse_i32, parse_unsigned, push_str, str_is_blank, trim, views,
    join_strings, is_blank, flagged, flagged_string,
};
use vstd::prelude::*;

verus! {

/// Whether the calendar is open, and the month it shows.
#[derive(Clone, Copy, Debug, PartialEq, Eq, Structural)]
pub struct CalendarView {
    /// The calendar (popup or inline) is shown.
    pub open: bool,
    /// Year of the month shown.
    pub year: i32,
    /// Month shown, 1 to 12.
    pub month: u32,
}

/// The view a picker starts with: the month of the initial view date, else
/// of the value, else of today; open when the picker is inline.
pub fn initial_view(initial: Option<Date>, value: Option<Date>, today: Date, inline: bool) -> (r:
    CalendarView)
    ensures
        ({
            let d = match initial {
                Some(d) => d,
                None => match value {
                    Some(d) => d,
                    None => today,
                },
            };
            r == (CalendarView { open: inline, year: d.year, month: d.month })
        }),
{
    let d = match initial {
        Some(d) => d,
        None => match value {
            Some(d) => d,
            None => today,
        },
    };
    CalendarView { open: inline, year: d.year, month: d.month }
}

/// The view after the trigger button: nothing changes on a disabled,
/// read-only or inline picker; otherwise a closed calendar opens on the month
/// of the value (or of today) and an open one closes.
pub fn toggle_open(
    v: CalendarView,
    disabled: bool,
    read_only: bool,
    inline: bool,
    value: Option<Date>,
    today: Date,
) -> (r: CalendarView)
    ensures
        disabled || read_only || inline ==> r == v,
        !(disabled || read_only || inline) && v.open ==> r == (CalendarView { open: false, ..v }),
        !(disabled || read_only || inline) && !v.open ==> ({
            let d = match value {
                Some(d) => d,
                None => today,
            };
            r == (CalendarView { open: true, year: d.year, month: d.month })
        }),
{
    if disabled || read_only || inline {
        return v;
    }
    if !v.open {
        let d = match value {
            Some(d) => d,
            None => today,
        };
        CalendarView { open: true, year: d.year, month: d.month }
    } else {
        CalendarView { open: false, ..v }
    }
}

/// The view after a value is committed: a popup closes, an inline calendar
/// stays.
pub fn after_commit(v: CalendarView, inline: bool) -> (r: CalendarView)
    ensures
        r == (CalendarView { open: v.open && inline, ..v }),
{
    CalendarView { open: v.open && inline, ..v }
}

/// The view when the picker loses focus: a popup closes, an inline calendar
/// stays.
pub fn after_blur(v: CalendarView, inline: bool) -> (r: CalendarView)
    ensures
        r == (CalendarView { open: v.open && inline, ..v }),
{
    after_commit(v, inline)
}

/// The month before the one shown, as `(year, month)`.
pub open spec fn month_before(year: int, month: int) -> (int, int) {
    if month == 1 {
        (year - 1, 12)
    } else {
        (year, month - 1)
    }
}

/// The month after the one shown, as `(year, month)`.
pub open spec fn month_after(year: int, month: int) -> (int, int) {
    if month == 12 {
        (year + 1, 1)
    } else {
        (year, month + 1)
    }
}

/// The view after the previous-month button: it moves back one month unless
/// the picker is disabled or that month's year is before `year_from`.
pub fn prev_month(v: CalendarView, disabled: bool, year_from: i32) -> (r: CalendarView)
    requires
        !disabled && v.month == 1 ==> v.year > i32::MIN,
        !disabled && v.month != 1 ==> v.month >= 1,
    ensures
        ({
            let (ny, nm) = month_before(v.year as int, v.month as int);
            r == if !disabled && ny >= year_from {
                CalendarView { open: v.open, year: ny as i32, month: nm as u32 }
            } else {
                v
            }
        }),
{
    if disabled {
        return v;
    }
    let (ny, nm): (i32, u32) = if v.month == 1 {
        (v.year - 1, 12)
    } else {
        (v.year, v.month - 1)
    };
    if ny >= year_from {
        CalendarView { open: v.open, year: ny, month: nm }
    } else {
        v
    }
}

/// The view after the next-month button: it moves on one month unless the
/// picker is disabled or that month's year is after `year_to`.
pub fn next_month(v: CalendarView, disabled: bool, year_to: i32) -> (r: CalendarView)
    requires
        !disabled && v.month == 12 ==> v.year < i32::MAX,
        !disabled && v.month != 12 ==> v.month < u32::MAX,
    ensures
        ({
            let (ny, nm) = month_after(v.year as int, v.month as int);
            r == if !disabled && ny <= year_to {
                CalendarView { open: v.open, year: ny as i32, month: nm as u32 }
            } else {
                v
            }
        }),
{
    if disabled {
        return v;
    }
    let (ny, nm): (i32, u32) = if v.month == 12 {
        (v.year + 1, 1)
    } else {
        (v.year, v.month + 1)
    };
    if ny <= year_to {
        CalendarView { open: v.open, year: ny, month: nm }
    } else {
        v
    }
}

/// Within `year_from..=year_to`, the next-month button undoes the
/// previous-month button.
pub proof fn lemma_prev_then_next(y: int, m: int, year_from: int, year_to: int)
    requires
        1 <= m <= 12,
        year_from <= month_before(y, m).0,
        month_before(y, m).0 <= y <= year_to,
    ensures
        month_after(month_before(y, m).0, month_before(y, m).1) == (y, m),
{
}

/// What a typed text does to the value.
#[derive(Clone, Copy, Debug, PartialEq, Eq, Structural)]
pub enum TypedDate {
    /// The text is blank: the value is cleared.
    Clear,
    /// The text reads as this date: it becomes the value.
    Select(Date),
    /// The text reads as no date: nothing changes.
    Keep,
}

/// What typing `text` does: blank text clears the value, a date read with
/// one of the input formats becomes the value, other text changes nothing.
pub fn typed_date(text: &str) -> (r: TypedDate)
    ensures
        is_blank(text@) ==> r == TypedDate::Clear,
        !is_blank(text@) ==> match first_parsed(trim(text@), input_formats()) {
            Some(t) => r == TypedDate::Select(Date { year: t.0, month: t.1, day: t.2 }),
            None => r == TypedDate::Keep,
        },
        r matches TypedDate::Select(d) ==> valid_date(d),
{
    if str_is_blank(text) {
        return TypedDate::Clear;
    }
    match parse_date_input(text) {
        Some(d) => TypedDate::Select(d),
        None => TypedDate::Keep,
    }
}

/// The view after a typed text: a selected date commits and shows its month,
/// a cleared value commits, other text changes nothing.
pub fn view_after_typed(v: CalendarView, inline: bool, t: TypedDate) -> (r: CalendarView)
    ensures
        r == match t {
            TypedDate::Clear => CalendarView { open: v.open && inline, ..v },
            TypedDate::Select(d) => CalendarView {
                open: v.open && inline,
                year: d.year,
                month: d.month,
            },
            TypedDate::Keep => v,
        },
{
    match t {
        TypedDate::Clear => after_commit(v, inline),
        TypedDate::Select(d) => CalendarView { open: v.open && inline, year: d.year, month: d.month },
        TypedDate::Keep => v,
    }
}

/// Whether a date is selected: in `dates` when the picker takes several,
/// else equal to the value.
pub open spec fn selected_in(day: Date, multiple: bool, dates: Seq<Date>, value: Option<Date>) -> bool {
    if multiple {
        dates.contains(day)
    } else {
        value == Some(day)
    }
}

/// Whether `dates` holds `day`.
pub fn contains_date(dates: &Vec<Date>, day: Date) -> (r: bool)
    ensures
        r == dates@.contains(day),
{
    let mut i: usize = 0;
    while i < dates.len()
        invariant
            i <= dates.len(),
            forall|j: int| 0 <= j < i ==> dates@[j] != day,
        decreases dates.len() - i,
    {
        if dates[i] == day {
            assert(dates@[i as int] == day);
            return true;
        }
        i = i + 1;
    }
    false
}

/// Whether a day is selected.
pub fn is_selected(day: Date, multiple: bool, dates: &Vec<Date>, value: Option<Date>) -> (r: bool)
    ensures
        r == selected_in(day, multiple, dates@, value),
{
    if multiple {
        contains_date(dates, day)
    } else {
        match value {
            Some(d) => d == day,
            None => false,
        }
    }
}

/// Whether the picker has a value: some date when it takes several, else a
/// value.
pub fn has_value(multiple: bool, dates: &Vec<Date>, value: Option<Date>) -> (r: bool)
    ensures
        r == if multiple {
            dates@.len() > 0
        } else {
            value is Some
        },
{
    if multiple {
        dates.len() > 0
    } else {
        value.is_some()
    }
}

/// Whether every date of a list has a month from 1 to 12.
pub open spec fn months_valid(dates: Seq<Date>) -> bool {
    forall|i: int| 0 <= i < dates.len() ==> 1 <= (#[trigger] dates[i]).month <= 12
}

/// The text shown in the input: the selected dates formatted and joined with
/// `", "` when the picker takes several, else the formatted value (empty when
/// there is none).
pub open spec fn shown_text(multiple: bool, dates: Seq<Date>, value: Option<Date>, fmt: Seq<char>) -> Seq<
    char,
> {
    if multiple {
        join_sep(dates.map_values(|d: Date| format_date(d, fmt)), ", "@)
    } else {
        match value {
            Some(d) => format_date(d, fmt),
            None => Seq::empty(),
        }
    }
}

/// The text shown in the input.
pub fn formatted_value(multiple: bool, dates: &Vec<Date>, value: Option<Date>, fmt: &str) -> (s:
    String)
    requires
        multiple ==> months_valid(dates@),
        !multiple ==> (value matches Some(d) ==> 1 <= d.month <= 12),
    ensures
        s@ == shown_text(multiple, dates@, value, fmt@),
{
    if multiple {
        let mut parts: Vec<String> = Vec::new();
        let mut i: usize = 0;
        while i < dates.len()
            invariant
                i <= dates.len(),
                months_valid(dates@),
                views(parts@) == dates@.take(i as int).map_values(|d: Date| format_date(d, fmt@)),
            decreases dates.len() - i,
        {
            let d = dates[i];
            assert(1 <= dates@[i as int].month <= 12);
            let f = format_date_str(d, fmt);
            let ghost before = parts@;
            parts.push(f);
            assert(views(parts@) =~= views(before).push(f@));
            assert(dates@.take(i + 1) =~= dates@.take(i as int).push(d));
            assert(views(parts@) =~= dates@.take(i + 1).map_values(|d: Date| format_date(d, fmt@)));
            i = i + 1;
        }
        assert(dates@.take(dates.len() as int) =~= dates@);
        proof {
            reveal_strlit(", ");
        }
        join_strings(&parts, ", ")
    } else {
        match value {
            Some(d) => format_date_str(d, fmt),
            None => String::new(),
        }
    }
}

/// Whether a day is disabled: the picker is, the render callback says so,
/// or it lies before `min` or after `max`.
pub open spec fn day_disabled(
    day: Date,
    args_disabled: bool,
    min: Option<Date>,
    max: Option<Date>,
    disabled: bool,
) -> bool {
    ||| disabled
    ||| args_disabled
    ||| (min matches Some(mn) && date_before(day, mn))
    ||| (max matches Some(mx) && date_before(mx, day))
}

/// The class of a day's cell: days of other months are marked
/// `rz-datepicker-other-month`; the render callback's class follows.
pub open spec fn day_cell_class(in_month: bool, extra: Option<Seq<char>>) -> Seq<char> {
    if !in_month {
        match extra {
            Some(e) => "rz-datepicker-other-month "@ + e,
            None => "rz-datepicker-other-month"@,
        }
    } else {
        match extra {
            Some(e) => e,
            None => Seq::empty(),
        }
    }
}

/// The class of a day's number.
pub open spec fn day_span_class(selected: bool, today: bool, in_month: bool, disabled: bool) -> Seq<
    char,
> {
    class_string(
        seq![
            "rz-state-default"@,
            class_if(selected, "rz-state-active"@),
            class_if(today && in_month, "rz-datepicker-today"@),
            class_if(disabled || !in_month, "rz-state-disabled"@),
        ],
    )
}

/// How one day of the calendar is shown.
pub struct DayCell {
    /// Class of the `<td>`.
    pub td_class: String,
    /// Class of the `<span>` holding the day's number.
    pub span_class: String,
    /// `tabindex` of the cell: -1 when it cannot be picked, else 0.
    pub tab_index: i32,
    /// The day cannot be picked (disabled or outside `min..=max`).
    pub disabled: bool,
    /// The day lies in the month shown.
    pub in_month: bool,
    /// The day is selected.
    pub selected: bool,
}

/// How a day of the grid is shown.
pub fn day_cell(
    day: Date,
    v: CalendarView,
    args: &DateRenderEventArgs,
    min: Option<Date>,
    max: Option<Date>,
    disabled: bool,
    today: Date,
    selected: bool,
) -> (c: DayCell)
    ensures
        c.in_month == (day.year == v.year && day.month == v.month),
        c.disabled == day_disabled(day, args.disabled, min, max, disabled),
        c.selected == selected,
        c.tab_index == if c.disabled || !c.in_month {
            -1i32
        } else {
            0i32
        },
        c.td_class@ == day_cell_class(
            c.in_month,
            match args.attributes {
                Some(a) => Some(a@),
                None => None,
            },
        ),
        c.span_class@ == day_span_class(selected, day == today, c.in_month, c.disabled),
{
    let in_month = day.year == v.year && day.month == v.month;
    let before_min = match min {
        Some(mn) => crate::components::date_picker::is_before(day, mn),
        None => false,
    };
    let after_max = match max {
        Some(mx) => crate::components::date_picker::is_before(mx, day),
        None => false,
    };
    let off = disabled || args.disabled || before_min || after_max;
    let is_today = day == today;
    let td_class = if !in_month {
        match &args.attributes {
            Some(extra) => {
                let mut s = String::new();
                push_str(&mut s, "rz-datepicker-other-month ");
                push_str(&mut s, extra.as_str());
                s
            },
            None => "rz-datepicker-other-month".to_owned(),
        }
    } else {
        match &args.attributes {
            Some(extra) => extra.clone(),
            None => String::new(),
        }
    };
    let l0 = ClassList::create("rz-state-default");
    let l1 = l0.add("rz-state-active", selected);
    let l2 = l1.add("rz-datepicker-today", is_today && in_month);
    let l3 = l2.add_disabled(off || !in_month);
    proof {
        reveal_strlit("rz-datepicker-other-month ");
        reveal_strlit("rz-datepicker-other-month");
        reveal_strlit("rz-state-default");
        reveal_strlit("rz-state-active");
        reveal_strlit("rz-datepicker-today");
        reveal_strlit("rz-state-disabled");
        lemma_created("rz-state-default"@);
        let p0 = seq!["rz-state-default"@];
        lemma_add_class_if(l0@, p0, "rz-state-active"@, selected);
        let p1 = p0.push(class_if(selected, "rz-state-active"@));
        lemma_add_class_if(l1@, p1, "rz-datepicker-today"@, is_today && in_month);
        let p2 = p1.push(class_if(is_today && in_month, "rz-datepicker-today"@));
        lemma_created("rz-state-disabled"@);
        lemma_add_class_if(l2@, p2, "rz-state-disabled"@, off || !in_month);
        let p3 = p2.push(class_if(off || !in_month, "rz-state-disabled"@));
        assert(p3 =~= seq![
            "rz-state-default"@,
            class_if(selected, "rz-state-active"@),
            class_if(is_today && in_month, "rz-datepicker-today"@),
            class_if(off || !in_month, "rz-state-disabled"@),
        ]);
    }
    let span_class = l3.finish();
    let tab: i32 = if off || !in_month {
        -1
    } else {
        0
    };
    DayCell { td_class, span_class, tab_index: tab, disabled: off, in_month, selected }
}

/// Removes the first occurrence of `day` from `dates`, or appends `day` when
/// it is absent.
pub fn toggle_date(dates: &mut Vec<Date>, day: Date)
    ensures
        final(dates)@ == toggled(old(dates)@, day),
{
    let ghost before = dates@;
    let mut i: usize = 0;
    while i < dates.len()
        invariant
            dates@ == before,
            before == old(dates)@,
            i <= dates.len(),
            forall|j: int| 0 <= j < i ==> dates@[j] != day,
        decreases dates.len() - i,
    {
        if dates[i] == day {
            proof {
                lemma_first_position(before, day, i as int);
            }
            dates.remove(i);
            return;
        }
        i = i + 1;
    }
    assert(!before.contains(day));
    dates.push(day);
}

/// What picking a day does.
#[derive(Clone, Copy, Debug, PartialEq, Eq, Structural)]
pub enum DayPick {
    /// Nothing happens.
    Ignore,
    /// The value becomes this (a selected day is cleared when clearing is
    /// allowed).
    Commit(Option<Date>),
    /// The selection of several dates changed; the change is reported with
    /// its first date.
    Toggled(Option<Date>),
}

/// The value that picking a day commits in single mode: nothing when it is
/// selected and clearing is allowed, else the day.
pub open spec fn picked_value(day: Date, allow_clear: bool, selected: bool) -> Option<Date> {
    if allow_clear && selected {
        None
    } else {
        Some(day)
    }
}

/// Picking a day that is not selected always makes it the value; picking the
/// selected day clears the value exactly when clearing is allowed, and keeps
/// it otherwise. No other day than the picked one can become the value.
pub proof fn lemma_picking_a_day(day: Date, allow_clear: bool, selected: bool)
    ensures
        !selected ==> picked_value(day, allow_clear, selected) == Some(day),
        selected ==> (picked_value(day, allow_clear, selected) is None <==> allow_clear),
        picked_value(day, allow_clear, selected) matches Some(d) ==> d == day,
{
}

/// Clicking a day: nothing on a disabled or read-only picker or a day of
/// another month; otherwise, with several dates the day is toggled in
/// `dates`, else the day (or nothing) is committed.
pub fn click_day(
    day: Date,
    cell_disabled: bool,
    in_month: bool,
    selected: bool,
    read_only: bool,
    multiple: bool,
    allow_clear: bool,
    dates: &mut Vec<Date>,
) -> (r: DayPick)
    ensures
        cell_disabled || read_only || !in_month ==> r == DayPick::Ignore && final(dates)@ == old(
            dates,
        )@,
        !(cell_disabled || read_only || !in_month) && multiple ==> final(dates)@ == toggled(
            old(dates)@,
            day,
        ) && r == DayPick::Toggled(
            if final(dates)@.len() > 0 {
                Some(final(dates)@[0])
            } else {
                None
            },
        ),
        !(cell_disabled || read_only || !in_month) && !multiple ==> final(dates)@ == old(dates)@
            && r == DayPick::Commit(picked_value(day, allow_clear, selected)),
{
    if cell_disabled || read_only || !in_month {
        return DayPick::Ignore;
    }
    if multiple {
        toggle_date(dates, day);
        let first = if dates.len() > 0 {
            Some(dates[0])
        } else {
            None
        };
        DayPick::Toggled(first)
    } else {
        DayPick::Commit(if allow_clear && selected {
            None
        } else {
            Some(day)
        })
    }
}

/// A key on a day: Enter and Space are taken (their default action is
/// prevented) and, on a day that can be picked in single mode, commit it.
/// Returns whether the default action is prevented, and what happens.
pub fn key_on_day(
    key: &str,
    day: Date,
    cell_disabled: bool,
    in_month: bool,
    selected: bool,
    multiple: bool,
    allow_clear: bool,
) -> (r: (bool, DayPick))
    ensures
        r.0 == (key@ == "Enter"@ || key@ == " "@),
        r.1 == if r.0 && !cell_disabled && in_month && !multiple {
            DayPick::Commit(picked_value(day, allow_clear, selected))
        } else {
            DayPick::Ignore
        },
{
    let taken = crate::text::str_equals(key, "Enter") || crate::text::str_equals(key, " ");
    if taken && !cell_disabled && in_month && !multiple {
        (true, DayPick::Commit(if allow_clear && selected {
            None
        } else {
            Some(day)
        }))
    } else {
        (taken, DayPick::Ignore)
    }
}

/// The years offered by the year list: `year_from` to `year_to`, in order
/// (none when `year_from` is after `year_to`).
pub fn year_options(year_from: i32, year_to: i32) -> (v: Vec<i32>)
    ensures
        v@.len() == if year_from <= year_to {
            year_to - year_from + 1
        } else {
            0
        },
        forall|i: int| 0 <= i < v@.len() ==> #[trigger] v@[i] == year_from + i,
{
    let mut v: Vec<i32> = Vec::new();
    if year_from > year_to {
        return v;
    }
    let mut y: i32 = year_from;
    loop
        invariant
            year_from <= y <= year_to,
            v@.len() == y - year_from,
            forall|i: int| 0 <= i < v@.len() ==> #[trigger] v@[i] == year_from + i,
        decreases year_to - y,
    {
        v.push(y);
        if y == year_to {
            return v;
        }
        y = y + 1;
    }
}

/// The months offered by the month list: each number from 1 to 12 with its
/// abbreviation.
pub fn month_options() -> (v: Vec<(u32, &'static str)>)
    ensures
        v@.len() == 12,
        forall|i: int| 0 <= i < 12 ==> (#[trigger] v@[i]).0 == i + 1 && v@[i].1@ == month_short_name(
            (i + 1) as u32,
        ),
{
    let mut v: Vec<(u32, &'static str)> = Vec::new();
    let mut m: u32 = 1;
    while m <= 12
        invariant
            1 <= m <= 13,
            v@.len() == m - 1,
            forall|i: int| 0 <= i < m - 1 ==> (#[trigger] v@[i]).0 == i + 1 && v@[i].1@ == month_short_name(
                (i + 1) as u32,
            ),
        decreases 13 - m,
    {
        v.push((m, month_abbr(m)));
        m = m + 1;
    }
    v
}

/// The view after a month is chosen in the month list: it shows the month
/// when the value reads as a `u32`.
pub fn choose_month(v: CalendarView, value: &str) -> (r: CalendarView)
    ensures
        r == match parse_int(value@, 0, u32::MAX as int) {
            Some(m) => CalendarView { month: m as u32, ..v },
            None => v,
        },
{
    match parse_unsigned(value, 0xffff_ffff) {
        Some(m) => CalendarView { month: m as u32, ..v },
        None => v,
    }
}

/// The view after a year is chosen in the year list: it shows the year when
/// the value reads as an `i32`.
pub fn choose_year(v: CalendarView, value: &str) -> (r: CalendarView)
    ensures
        r == match parse_int(value@, i32::MIN as int, i32::MAX as int) {
            Some(y) => CalendarView { year: y as i32, ..v },
            None => v,
        },
{
    match parse_i32(value) {
        Some(y) => CalendarView { year: y, ..v },
        None => v,
    }
}

/// The `tabindex` of a control: -1 when it is disabled, else the one given.
pub fn effective_tab_index(disabled: bool, tab_index: i32) -> (r: i32)
    ensures
        r == if disabled {
            -1i32
        } else {
            tab_index
        },
{
    if disabled {
        -1
    } else {
        tab_index
    }
}

/// The class of the picker's root element.
pub open spec fn picker_class(inline: bool, disabled: bool, caller: Seq<char>) -> Seq<char> {
    class_string(
        seq![
            "rz-datepicker"@,
            class_if(inline, "rz-datepicker-inline"@),
            class_if(disabled, "rz-state-disabled"@),
            caller,
        ],
    )
}

/// The class of the picker's root element; the caller's class comes last.
pub fn date_picker_class(inline: bool, disabled: bool, caller: &str) -> (s: String)
    ensures
        s@ == picker_class(inline, disabled, caller@),
{
    let l0 = ClassList::create("rz-datepicker");
    let l1 = l0.add("rz-datepicker-inline", inline);
    let l2 = l1.add_disabled(disabled);
    let l3 = l2.add_caller_class(
        if caller.is_empty() {
            None
        } else {
            Some(caller)
        },
    );
    proof {
        reveal_strlit("rz-datepicker");
        reveal_strlit("rz-datepicker-inline");
        reveal_strlit("rz-state-disabled");
        lemma_created("rz-datepicker"@);
        let p0 = seq!["rz-datepicker"@];
        lemma_add_class_if(l0@, p0, "rz-datepicker-inline"@, inline);
        let p1 = p0.push(class_if(inline, "rz-datepicker-inline"@));
        lemma_created("rz-state-disabled"@);
        lemma_add_class_if(l1@, p1, "rz-state-disabled"@, disabled);
        let p2 = p1.push(class_if(disabled, "rz-state-disabled"@));
        lemma_add_class_if(l2@, p2, caller@, true);
        let p3 = p2.push(class_if(true, caller@));
        assert(p3 =~= seq![
            "rz-datepicker"@,
            class_if(inline, "rz-datepicker-inline"@),
            class_if(disabled, "rz-state-disabled"@),
            caller@,
        ]);
    }
    l3.finish()
}

/// The class of the text input: `rz-input-trigger` without a trigger
/// button, `rz-readonly` when read-only.
pub fn date_input_class(show_button: bool, read_only: bool) -> (s: String)
    ensures
        s@ == flagged("rz-inputtext"@, "rz-input-trigger"@, !show_button, "rz-readonly"@, read_only),
{
    flagged_string("rz-inputtext", "rz-input-trigger", !show_button, "rz-readonly", read_only)
}

/// The class of the trigger button, with the caller's button class last.
pub open spec fn trigger_class(show_input: bool, disabled: bool, button_class: Seq<char>) -> Seq<
    char,
> {
    let base = "rz-datepicker-trigger"@ + (if show_input {
        " rz-datepicker-field-button"@
    } else {
        Seq::empty()
    }) + " rz-button rz-button-icon-only"@ + (if disabled {
        " rz-state-disabled"@
    } else {
        Seq::empty()
    });
    if button_class.len() == 0 {
        base
    } else {
        base + " "@ + button_class
    }
}

/// The class of the trigger button.
pub fn trigger_button_class(show_input: bool, disabled: bool, button_class: &str) -> (s: String)
    ensures
        s@ == trigger_class(show_input, disabled, button_class@),
{
    let mut s = String::new();
    push_str(&mut s, "rz-datepicker-trigger");
    if show_input {
        push_str(&mut s, " rz-datepicker-field-button");
    }
    push_str(&mut s, " rz-button rz-button-icon-only");
    if disabled {
        push_str(&mut s, " rz-state-disabled");
    }
    if !button_class.is_empty() {
        push_str(&mut s, " ");
        push_str(&mut s, button_class);
    }
    proof {
        assert(s@ =~= trigger_class(show_input, disabled, button_class@));
    }
    s
}

/// The parts of the input row and how they behave.
pub struct InputSection {
    /// The text input is shown.
    pub show_input: bool,
    /// The trigger button is shown.
    pub show_button: bool,
    /// The clear button is shown.
    pub show_clear: bool,
    /// The text input cannot be typed in.
    pub read_only: bool,
    /// A press on the input opens the calendar (there is no button).
    pub input_opens: bool,
    /// `tabindex` of the input.
    pub tab_index: i32,
    /// Class of the input.
    pub input_class: String,
    /// Class of the trigger button.
    pub button_class: String,
}

/// The input row of a picker that is not inline: the input shows unless
/// only the button is wanted, the clear button shows with the input when
/// clearing is allowed, and the input is read-only when typing is not
/// allowed.
pub fn input_section(
    show_input: bool,
    show_button: bool,
    allow_clear: bool,
    allow_input: bool,
    read_only: bool,
    disabled: bool,
    tab_index: i32,
    button_class: &str,
) -> (r: InputSection)
    ensures
        r.show_input == (show_input || !show_button),
        r.show_button == show_button,
        r.show_clear == (allow_clear && (show_input || !show_button)),
        r.read_only == (!allow_input || read_only),
        r.input_opens == !show_button,
        r.tab_index == if disabled {
            -1i32
        } else {
            tab_index
        },
        r.input_class@ == flagged(
            "rz-inputtext"@,
            "rz-input-trigger"@,
            !show_button,
            "rz-readonly"@,
            read_only,
        ),
        r.button_class@ == trigger_class(show_input, disabled, button_class@),
{
    InputSection {
        show_input: show_input || !show_button,
        show_button,
        show_clear: allow_clear && (show_input || !show_button),
        read_only: !allow_input || read_only,
        input_opens: !show_button,
        tab_index: effective_tab_index(disabled, tab_index),
        input_class: date_input_class(show_button, read_only),
        button_class: trigger_button_class(show_input, disabled, button_class),
    }
}

/// The style of the clear button: hidden while there is no value.
pub fn clear_button_style(has_value: bool) -> (s: &'static str)
    ensures
        s@ == if has_value {
            ""@
        } else {
            "display:none"@
        },
{
    if has_value {
        ""
    } else {
        "display:none"
    }
}

/// The class of the calendar's container.
pub fn popup_container_class(inline: bool) -> (s: &'static str)
    ensures
        s@ == if inline {
            "rz-datepicker-inline-container"@
        } else {
            "rz-datepicker-popup-container"@
        },
{
    if inline {
        "rz-datepicker-inline-container"
    } else {
        "rz-datepicker-popup-container"
    }
}

/// The style of the calendar's container: a popup is placed below the input.
pub fn popup_style(inline: bool) -> (s: &'static str)
    ensures
        s@ == if inline {
            ""@
        } else {
            "position:absolute;z-index:var(--rz-popup-z-index,1000);left:0;top:100%;min-width:100%"@
        },
{
    if inline {
        ""
    } else {
        "position:absolute;z-index:var(--rz-popup-z-index,1000);left:0;top:100%;min-width:100%"
    }
}

/// The date that the time picker's OK button commits: the value, else today.
pub fn ok_date(value: Option<Date>, today: Date) -> (d: Date)
    ensures
        d == match value {
            Some(v) => v,
            None => today,
        },
{
    match value {
        Some(v) => v,
        None => today,
    }
}

/// One part of the time picker's row.
#[derive(Clone, Copy, Debug, PartialEq, Eq, Structural)]
pub enum TimePart {
    /// The hour spinner.
    Hour,
    /// A `:` separator.
    Separator,
    /// The minute spinner.
    Minute,
    /// The second spinner.
    Second,
    /// The AM/PM switch.
    Meridiem,
    /// The OK button.
    OkButton,
}

/// The parts of the time picker, in order.
pub open spec fn time_layout(
    show_hour: bool,
    show_minutes: bool,
    show_seconds: bool,
    is12: bool,
    show_ok: bool,
) -> Seq<TimePart> {
    (if show_hour {
        seq![TimePart::Hour]
    } else {
        Seq::empty()
    }) + (if show_minutes {
        (if show_hour {
            seq![TimePart::Separator]
        } else {
            Seq::empty()
        }) + seq![TimePart::Minute]
    } else {
        Seq::empty()
    }) + (if show_seconds {
        (if show_minutes {
            seq![TimePart::Separator]
        } else {
            Seq::empty()
        }) + seq![TimePart::Second]
    } else {
        Seq::empty()
    }) + (if is12 {
        seq![TimePart::Meridiem]
    } else {
        Seq::empty()
    }) + (if show_ok {
        seq![TimePart::OkButton]
    } else {
        Seq::empty()
    })
}

/// The parts of the time picker: hour, minutes and seconds with a separator
/// between shown neighbours, then AM/PM in 12-hour mode, then OK.
pub fn time_parts(
    show_hour: bool,
    show_minutes: bool,
    show_seconds: bool,
    is12: bool,
    show_ok: bool,
) -> (v: Vec<TimePart>)
    ensures
        v@ == time_layout(show_hour, show_minutes, show_seconds, is12, show_ok),
{
    let mut v: Vec<TimePart> = Vec::new();
    if show_hour {
        v.push(TimePart::Hour);
    }
    if show_minutes {
        if show_hour {
            v.push(TimePart::Separator);
        }
        v.push(TimePart::Minute);
    }
    if show_seconds {
        if show_minutes {
            v.push(TimePart::Separator);
        }
        v.push(TimePart::Second);
    }
    if is12 {
        v.push(TimePart::Meridiem);
    }
    if show_ok {
        v.push(TimePart::OkButton);
    }
    assert(v@ =~= time_layout(show_hour, show_minutes, show_seconds, is12, show_ok));
    v
}

/// Whether the hour format asks for a 12-hour clock (`"12"`).
pub fn is_twelve_hour(hour_format: &str) -> (b: bool)
    ensures
        b == (hour_format@ == "12"@),
{
    crate::text::str_equals(hour_format, "12")
}

} // verus!
