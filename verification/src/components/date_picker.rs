//! Logic of the date picker: the calendar date type, date formatting and
//! parsing, the month grid, and what the picker's buttons and keys do.
//!
//! Calendar arithmetic (weekdays, adding days, ISO weeks, parsing with a
//! format) is chrono's; each such call stands behind a trusted function below.

use crate::text::{
    decimal, decimal_string, parse_i32, parse_int, push_char, push_str, replace, replace_all, to_chars, split_at_char,
    split_pieces, trim, trim_str, views, zero_padded, zero_padded_string,
};
use chrono::{Datelike, NaiveDate};
use vstd::prelude::*;

verus! {

/// A calendar date (the value that chrono's `NaiveDate` holds).
#[derive(Clone, Copy, Debug, PartialEq, Eq, Structural)]
pub struct Date {
    /// Year (negative for years before 1 BCE).
    pub year: i32,
    /// Month, 1 to 12.
    pub month: u32,
    /// Day of the month, from 1.
    pub day: u32,
}

/// What the `date_render` callback gives back for one calendar cell.
#[derive(Clone, Debug)]
pub struct DateRenderEventArgs {
    /// The date this cell represents.
    pub date: Date,
    /// Set to `true` to disable this date (prevents selection).
    pub disabled: bool,
    /// Extra CSS class to append to this cell's `<td>`.
    pub attributes: Option<String>,
}

/// Earliest year chrono represents.
pub const MIN_YEAR: i32 = -262143;

/// Latest year chrono represents.
pub const MAX_YEAR: i32 = 262142;

/// Whether `y` is a leap year of the proleptic Gregorian calendar.
pub open spec fn is_leap(y: int) -> bool {
    (y % 4 == 0 && y % 100 != 0) || y % 400 == 0
}

/// Number of days of month `m` in year `y`.
pub open spec fn days_in_month(y: int, m: int) -> int {
    if m == 2 {
        if is_leap(y) {
            29
        } else {
            28
        }
    } else if m == 4 || m == 6 || m == 9 || m == 11 {
        30
    } else {
        31
    }
}

/// Whether the date exists and lies in chrono's range.
pub open spec fn valid_date(d: Date) -> bool {
    &&& MIN_YEAR <= d.year <= MAX_YEAR
    &&& 1 <= d.month <= 12
    &&& 1 <= d.day <= days_in_month(d.year as int, d.month as int)
}

/// The date of a `(year, month, day)` triple.
pub open spec fn date_of(t: (i32, u32, u32)) -> Date {
    Date { year: t.0, month: t.1, day: t.2 }
}

/// Chronological order of dates.
pub open spec fn date_before(a: Date, b: Date) -> bool {
    a.year < b.year || (a.year == b.year && (a.month < b.month || (a.month == b.month && a.day
        < b.day)))
}

/// Whether `a` comes before `b`.
pub fn is_before(a: Date, b: Date) -> (r: bool)
    ensures
        r == date_before(a, b),
{
    a.year < b.year || (a.year == b.year && (a.month < b.month || (a.month == b.month && a.day
        < b.day)))
}

/// Number of days from 1970-01-01 to the given date of the proleptic
/// Gregorian calendar (negative before it). Months are counted from March, so
/// that the leap day ends a counted year; `/` is floor division here.
pub open spec fn day_number(y: int, m: int, d: int) -> int {
    let yy = if m <= 2 {
        y - 1
    } else {
        y
    };
    let era = yy / 400;
    let yoe = yy - era * 400;
    let mp = if m > 2 {
        m - 3
    } else {
        m + 9
    };
    let doy = (153 * mp + 2) / 5 + d - 1;
    let doe = yoe * 365 + yoe / 4 - yoe / 100 + doy;
    era * 146097 + doe - 719468
}

/// The day number of a date.
pub open spec fn date_number(d: Date) -> int {
    day_number(d.year as int, d.month as int, d.day as int)
}

/// Whether a day number falls within chrono's dates, from the first day of
/// `MIN_YEAR` to the last day of `MAX_YEAR`.
pub open spec fn in_chrono_range(n: int) -> bool {
    day_number(MIN_YEAR as int, 1, 1) <= n <= day_number(MAX_YEAR as int, 12, 31)
}

/// Day of the week of a date, counted from Sunday = 0 (1970-01-01 was a
/// Thursday).
pub open spec fn weekday_from_sunday(y: i32, m: u32, d: u32) -> u32 {
    ((day_number(y as int, m as int, d as int) + 4) % 7) as u32
}

/// Day number of the Monday that starts ISO week 1 of year `y`: the week
/// that holds January 4.
pub open spec fn iso_week_one_start(y: int) -> int {
    let n = day_number(y, 1, 4);
    n - (n + 3) % 7
}

/// ISO 8601 week number of a date: weeks start on Monday, and week 1 is the
/// one holding January 4, so the first days of January can belong to the last
/// week of the year before, and the last days of December to week 1.
pub open spec fn iso_week_of(y: i32, m: u32, d: u32) -> u32 {
    let n = day_number(y as int, m as int, d as int);
    let w = if n < iso_week_one_start(y as int) {
        (n - iso_week_one_start(y - 1)) / 7 + 1
    } else if n >= iso_week_one_start(y + 1) {
        1
    } else {
        (n - iso_week_one_start(y as int)) / 7 + 1
    };
    w as u32
}

/// The date that chrono's `NaiveDate::parse_from_str` reads from `s` with the
/// format `fmt`, if it reads one.
pub uninterp spec fn parsed_date(s: Seq<char>, fmt: Seq<char>) -> Option<(i32, u32, u32)>;

/// Day of the week of a valid date, counted from Sunday (chrono's
/// `Datelike::weekday`). Claimed: chrono's weekday is that of the proleptic
/// Gregorian calendar, as `weekday_from_sunday` computes it.
#[verifier::external_body]
fn weekday_of(d: Date) -> (r: u32)
    requires
        valid_date(d),
    ensures
        r == weekday_from_sunday(d.year, d.month, d.day),
{
    match NaiveDate::from_ymd_opt(d.year, d.month, d.day).unwrap().weekday() {
        chrono::Weekday::Sun => 0,
        chrono::Weekday::Mon => 1,
        chrono::Weekday::Tue => 2,
        chrono::Weekday::Wed => 3,
        chrono::Weekday::Thu => 4,
        chrono::Weekday::Fri => 5,
        chrono::Weekday::Sat => 6,
    }
}

/// The date `days` days after a valid date (chrono's `TimeDelta::try_days`
/// and `NaiveDate::checked_add_signed`). Claimed: it gives a date exactly when
/// the day number `days` later lies within chrono's dates, and then the valid
/// date with that day number.
#[verifier::external_body]
fn add_days(d: Date, days: i64) -> (r: Option<Date>)
    requires
        valid_date(d),
    ensures
        match r {
            Some(x) => in_chrono_range(date_number(d) + days) && valid_date(x) && date_number(x)
                == date_number(d) + days,
            None => !in_chrono_range(date_number(d) + days),
        },
{
    match chrono::TimeDelta::try_days(days) {
        Some(delta) => match NaiveDate::from_ymd_opt(d.year, d.month, d.day).unwrap().checked_add_signed(delta) {
            Some(n) => Some(Date { year: n.year(), month: n.month(), day: n.day() }),
            None => None,
        },
        None => None,
    }
}

/// ISO 8601 week number of a valid date (chrono's `IsoWeek::week`). Claimed:
/// chrono's week number is the one `iso_week_of` computes, from 1 to 53.
#[verifier::external_body]
fn iso_week_number(d: Date) -> (r: u32)
    requires
        valid_date(d),
    ensures
        r == iso_week_of(d.year, d.month, d.day),
        1 <= r <= 53,
{
    NaiveDate::from_ymd_opt(d.year, d.month, d.day).unwrap().iso_week().week()
}

/// The ISO 8601 week number shown before a row of the month grid: that of
/// its first day.
pub fn week_number(week: &Vec<Date>) -> (r: u32)
    requires
        week@.len() > 0,
        valid_date(week@[0]),
    ensures
        r == iso_week_of(week@[0].year, week@[0].month, week@[0].day),
        1 <= r <= 53,
{
    iso_week_number(week[0])
}

/// Parses `s` with a chrono format string (chrono's
/// `NaiveDate::parse_from_str`). Claimed: the result is a function of the
/// arguments alone, and a date it returns is valid.
#[verifier::external_body]
fn parse_with_format(s: &str, fmt: &str) -> (r: Option<Date>)
    ensures
        match r {
            Some(x) => parsed_date(s@, fmt@) == Some((x.year, x.month, x.day)) && valid_date(x),
            None => parsed_date(s@, fmt@) is None,
        },
{
    match NaiveDate::parse_from_str(s, fmt) {
        Ok(n) => Some(Date { year: n.year(), month: n.month(), day: n.day() }),
        Err(_) => None,
    }
}

/// Full English name of month `m` (1 to 12).
pub open spec fn month_full_name(m: u32) -> Seq<char> {
    if m == 1 {
        "January"@
    } else if m == 2 {
        "February"@
    } else if m == 3 {
        "March"@
    } else if m == 4 {
        "April"@
    } else if m == 5 {
        "May"@
    } else if m == 6 {
        "June"@
    } else if m == 7 {
        "July"@
    } else if m == 8 {
        "August"@
    } else if m == 9 {
        "September"@
    } else if m == 10 {
        "October"@
    } else if m == 11 {
        "November"@
    } else {
        "December"@
    }
}

/// Three-letter English abbreviation of month `m` (1 to 12).
pub open spec fn month_short_name(m: u32) -> Seq<char> {
    if m == 1 {
        "Jan"@
    } else if m == 2 {
        "Feb"@
    } else if m == 3 {
        "Mar"@
    } else if m == 4 {
        "Apr"@
    } else if m == 5 {
        "May"@
    } else if m == 6 {
        "Jun"@
    } else if m == 7 {
        "Jul"@
    } else if m == 8 {
        "Aug"@
    } else if m == 9 {
        "Sep"@
    } else if m == 10 {
        "Oct"@
    } else if m == 11 {
        "Nov"@
    } else {
        "Dec"@
    }
}

/// Full English name of a month; the month is 1 to 12.
pub fn month_name_full(month: u32) -> (s: &'static str)
    requires
        1 <= month <= 12,
    ensures
        s@ == month_full_name(month),
{
    match month {
        1 => "January",
        2 => "February",
        3 => "March",
        4 => "April",
        5 => "May",
        6 => "June",
        7 => "July",
        8 => "August",
        9 => "September",
        10 => "October",
        11 => "November",
        _ => "December",
    }
}

/// Three-letter abbreviation of a month; the month is 1 to 12.
pub fn month_abbr(month: u32) -> (s: &'static str)
    requires
        1 <= month <= 12,
    ensures
        s@ == month_short_name(month),
{
    match month {
        1 => "Jan",
        2 => "Feb",
        3 => "Mar",
        4 => "Apr",
        5 => "May",
        6 => "Jun",
        7 => "Jul",
        8 => "Aug",
        9 => "Sep",
        10 => "Oct",
        11 => "Nov",
        _ => "Dec",
    }
}

/// `v` formatted with `{:0w$}`: zero-padded to `w` characters, the minus
/// sign of a negative value counting as one of them.
pub open spec fn signed_padded(v: int, w: nat) -> Seq<char> {
    if v < 0 {
        seq!['-'] + zero_padded((-v) as nat, if w > 0 {
            (w - 1) as nat
        } else {
            0
        })
    } else {
        zero_padded(v as nat, w)
    }
}

/// The remainder of `y` divided by 100, with the sign of `y` (Rust's `%`).
pub open spec fn rem100(y: int) -> int {
    if y < 0 {
        -((-y) % 100)
    } else {
        y % 100
    }
}

fn signed_padded_string(v: i32, w: usize) -> (s: String)
    requires
        w >= 1,
    ensures
        s@ == signed_padded(v as int, w as nat),
{
    if v < 0 {
        let a: u64 = (0i64 - (v as i64)) as u64;
        let mut s = String::new();
        push_str(&mut s, "-");
        let t = zero_padded_string(a, w - 1);
        push_str(&mut s, t.as_str());
        proof {
            reveal_strlit("-");
            assert(s@ =~= signed_padded(v as int, w as nat));
        }
        s
    } else {
        zero_padded_string(v as u64, w)
    }
}

/// Whether `fmt` starts with `n` copies of `c`.
pub open spec fn run_at(fmt: Seq<char>, c: char, n: int) -> bool {
    &&& n <= fmt.len()
    &&& forall|i: int| 0 <= i < n ==> fmt[i] == c
}

/// `fmt` with its tokens replaced by the parts of `d`, read once from left to
/// right. At each position the longest token that starts there is taken:
/// `yyyy` (year, 4 digits), `yy` (year modulo 100, 2 digits), `MMMM` (month
/// name), `MMM` (month abbreviation), `MM` (month, 2 digits), `M` (month),
/// `dd` (day, 2 digits), `d` (day); any other character stays. The text put
/// in for a token is never read again.
pub open spec fn format_date(d: Date, fmt: Seq<char>) -> Seq<char>
    decreases fmt.len(),
{
    if fmt.len() == 0 {
        fmt
    } else if run_at(fmt, 'y', 4) {
        signed_padded(d.year as int, 4) + format_date(d, fmt.skip(4))
    } else if run_at(fmt, 'y', 2) {
        signed_padded(rem100(d.year as int), 2) + format_date(d, fmt.skip(2))
    } else if run_at(fmt, 'M', 4) {
        month_full_name(d.month) + format_date(d, fmt.skip(4))
    } else if run_at(fmt, 'M', 3) {
        month_short_name(d.month) + format_date(d, fmt.skip(3))
    } else if run_at(fmt, 'M', 2) {
        zero_padded(d.month as nat, 2) + format_date(d, fmt.skip(2))
    } else if run_at(fmt, 'M', 1) {
        decimal(d.month as nat) + format_date(d, fmt.skip(1))
    } else if run_at(fmt, 'd', 2) {
        zero_padded(d.day as nat, 2) + format_date(d, fmt.skip(2))
    } else if run_at(fmt, 'd', 1) {
        decimal(d.day as nat) + format_date(d, fmt.skip(1))
    } else {
        seq![fmt[0]] + format_date(d, fmt.skip(1))
    }
}

/// Whether `v` holds `n` copies of `c` from position `i` on.
fn run_at_vec(v: &Vec<char>, i: usize, c: char, n: usize) -> (b: bool)
    requires
        i <= v.len(),
    ensures
        b == run_at(v@.skip(i as int), c, n as int),
{
    if n > v.len() - i {
        return false;
    }
    let mut k: usize = 0;
    while k < n
        invariant
            i + n <= v.len(),
            k <= n,
            forall|j: int| 0 <= j < k ==> #[trigger] v@.skip(i as int)[j] == c,
        decreases n - k,
    {
        if v[i + k] != c {
            assert(v@.skip(i as int)[k as int] != c);
            return false;
        }
        k = k + 1;
    }
    true
}

/// Formats a date with a simple format string; the supported tokens are
/// `yyyy`, `yy`, `MMMM`, `MMM`, `MM`, `M`, `dd` and `d`.
pub fn format_date_str(d: Date, fmt: &str) -> (s: String)
    requires
        1 <= d.month <= 12,
    ensures
        s@ == format_date(d, fmt@),
{
    let y4 = signed_padded_string(d.year, 4);
    let y = d.year;
    let r: i32 = if y < 0 {
        0 - (((0i64 - (y as i64)) % 100) as i32)
    } else {
        y % 100
    };
    let y2 = signed_padded_string(r, 2);
    let m2 = zero_padded_string(d.month as u64, 2);
    let m1 = decimal_string(d.month as u64);
    let d2 = zero_padded_string(d.day as u64, 2);
    let d1 = decimal_string(d.day as u64);
    let v = to_chars(fmt);
    let mut out = String::new();
    let mut i: usize = 0;
    assert(v@.skip(0) =~= v@);
    while i < v.len()
        invariant
            v@ == fmt@,
            1 <= d.month <= 12,
            i <= v.len(),
            y4@ == signed_padded(d.year as int, 4),
            y2@ == signed_padded(rem100(d.year as int), 2),
            m2@ == zero_padded(d.month as nat, 2),
            m1@ == decimal(d.month as nat),
            d2@ == zero_padded(d.day as nat, 2),
            d1@ == decimal(d.day as nat),
            out@ + format_date(d, v@.skip(i as int)) == format_date(d, v@),
        decreases v.len() - i,
    {
        let ghost rest = v@.skip(i as int);
        let n: usize;
        if run_at_vec(&v, i, 'y', 4) {
            push_str(&mut out, y4.as_str());
            n = 4;
        } else if run_at_vec(&v, i, 'y', 2) {
            push_str(&mut out, y2.as_str());
            n = 2;
        } else if run_at_vec(&v, i, 'M', 4) {
            push_str(&mut out, month_name_full(d.month));
            n = 4;
        } else if run_at_vec(&v, i, 'M', 3) {
            push_str(&mut out, month_abbr(d.month));
            n = 3;
        } else if run_at_vec(&v, i, 'M', 2) {
            push_str(&mut out, m2.as_str());
            n = 2;
        } else if run_at_vec(&v, i, 'M', 1) {
            push_str(&mut out, m1.as_str());
            n = 1;
        } else if run_at_vec(&v, i, 'd', 2) {
            push_str(&mut out, d2.as_str());
            n = 2;
        } else if run_at_vec(&v, i, 'd', 1) {
            push_str(&mut out, d1.as_str());
            n = 1;
        } else {
            push_char(&mut out, v[i]);
            n = 1;
        }
        assert(rest.skip(n as int) =~= v@.skip(i + n));
        i = i + n;
    }
    assert(v@.skip(i as int) =~= Seq::<char>::empty());
    assert(out@ =~= out@ + format_date(d, v@.skip(i as int)));
    out
}

/// The formats that typed dates are tried with, in order.
pub open spec fn input_formats() -> Seq<Seq<char>> {
    seq![
        "%Y-%m-%d"@,
        "%m/%d/%Y"@,
        "%d/%m/%Y"@,
        "%d.%m.%Y"@,
        "%Y.%m.%d"@,
        "%-m/%-d/%Y"@,
        "%m/%d/%Y"@,
        "%Y/%m/%d"@,
    ]
}

/// The date read with the first of `fmts` that reads one.
pub open spec fn first_parsed(s: Seq<char>, fmts: Seq<Seq<char>>) -> Option<(i32, u32, u32)>
    decreases fmts.len(),
{
    if fmts.len() == 0 {
        None
    } else {
        match parsed_date(s, fmts[0]) {
            Some(d) => Some(d),
            None => first_parsed(s, fmts.skip(1)),
        }
    }
}

/// Reads a typed date: the text without surrounding whitespace, read with the
/// first of the input formats that reads it.
pub fn parse_date_input(s: &str) -> (r: Option<Date>)
    ensures
        match r {
            Some(d) => first_parsed(trim(s@), input_formats()) == Some((d.year, d.month, d.day))
                && valid_date(d),
            None => first_parsed(trim(s@), input_formats()) is None,
        },
{
    let t = trim_str(s);
    let ts = t.as_str();
    let ghost f = input_formats();
    proof {
        reveal_with_fuel(first_parsed, 9);
        assert(f.skip(1) =~= seq![f[1], f[2], f[3], f[4], f[5], f[6], f[7]]);
        assert(f.skip(1).skip(1) =~= seq![f[2], f[3], f[4], f[5], f[6], f[7]]);
        assert(f.skip(1).skip(1).skip(1) =~= seq![f[3], f[4], f[5], f[6], f[7]]);
        assert(f.skip(1).skip(1).skip(1).skip(1) =~= seq![f[4], f[5], f[6], f[7]]);
        assert(f.skip(1).skip(1).skip(1).skip(1).skip(1) =~= seq![f[5], f[6], f[7]]);
        assert(f.skip(1).skip(1).skip(1).skip(1).skip(1).skip(1) =~= seq![f[6], f[7]]);
        assert(f.skip(1).skip(1).skip(1).skip(1).skip(1).skip(1).skip(1) =~= seq![f[7]]);
        assert(seq![f[7]].skip(1) =~= Seq::<Seq<char>>::empty());
    }
    if let Some(d) = parse_with_format(ts, "%Y-%m-%d") {
        return Some(d);
    }
    if let Some(d) = parse_with_format(ts, "%m/%d/%Y") {
        return Some(d);
    }
    if let Some(d) = parse_with_format(ts, "%d/%m/%Y") {
        return Some(d);
    }
    if let Some(d) = parse_with_format(ts, "%d.%m.%Y") {
        return Some(d);
    }
    if let Some(d) = parse_with_format(ts, "%Y.%m.%d") {
        return Some(d);
    }
    if let Some(d) = parse_with_format(ts, "%-m/%-d/%Y") {
        return Some(d);
    }
    if let Some(d) = parse_with_format(ts, "%m/%d/%Y") {
        return Some(d);
    }
    parse_with_format(ts, "%Y/%m/%d")
}

/// The year read from a piece of a year range, or `default` when the piece is
/// missing or not an `i32`.
pub open spec fn year_or(piece: Option<Seq<char>>, default: int) -> int {
    match piece {
        Some(p) => match parse_int(p, i32::MIN as int, i32::MAX as int) {
            Some(v) => v,
            None => default,
        },
        None => default,
    }
}

/// The years of a range such as `"1900:2100"`: the first and second pieces
/// between colons, read as `i32`, defaulting to 1900 and 2100.
pub open spec fn year_range_of(range: Seq<char>) -> (int, int) {
    let p = split_pieces(range, ':');
    (
        year_or(if p.len() > 0 { Some(p[0]) } else { None }, 1900),
        year_or(if p.len() > 1 { Some(p[1]) } else { None }, 2100),
    )
}

/// Parses a year range such as `"1900:2100"` into `(from, to)`.
pub fn parse_year_range(range: &str) -> (r: (i32, i32))
    ensures
        (r.0 as int, r.1 as int) == year_range_of(range@),
{
    let parts = split_at_char(range, ':');
    let from: i32 = if parts.len() > 0 {
        match parse_i32(parts[0].as_str()) {
            Some(v) => v,
            None => 1900,
        }
    } else {
        1900
    };
    let to: i32 = if parts.len() > 1 {
        match parse_i32(parts[1].as_str()) {
            Some(v) => v,
            None => 2100,
        }
    } else {
        2100
    };
    proof {
        assert(views(parts@).len() == parts@.len());
        if parts.len() > 0 {
            assert(views(parts@)[0] == parts@[0]@);
        }
        if parts.len() > 1 {
            assert(views(parts@)[1] == parts@[1]@);
        }
    }
    (from, to)
}

/// The first day of a month.
pub open spec fn first_of_month(year: i32, month: u32) -> Date {
    Date { year, month, day: 1 }
}

/// Day number of the Sunday on or before the first day of a month: the
/// Sunday-to-Saturday weeks shown for the month start there.
pub open spec fn grid_start(year: i32, month: u32) -> int {
    day_number(year as int, month as int, 1) - weekday_from_sunday(year, month, 1)
}

/// Whether chrono represents every day of the month grid: the month exists
/// and the 42 days from the grid's start lie within chrono's dates.
pub open spec fn grid_defined(year: i32, month: u32) -> bool {
    &&& valid_date(first_of_month(year, month))
    &&& in_chrono_range(grid_start(year, month))
    &&& in_chrono_range(grid_start(year, month) + 41)
}

/// Whether `weeks` is the month grid: 6 rows of 7 valid dates, day after day
/// from the grid's start.
pub open spec fn is_month_grid(year: i32, month: u32, weeks: Seq<Seq<Date>>) -> bool {
    &&& weeks.len() == 6
    &&& forall|row: int| 0 <= row < 6 ==> (#[trigger] weeks[row]).len() == 7
    &&& forall|row: int, col: int|
        0 <= row < 6 && 0 <= col < 7 ==> valid_date(#[trigger] weeks[row][col]) && date_number(
            weeks[row][col],
        ) == grid_start(year, month) + 7 * row + col
}

/// The month grid, or `None` when chrono does not represent one of its days.
pub fn calendar_weeks(year: i32, month: u32) -> (r: Option<Vec<Vec<Date>>>)
    ensures
        match r {
            Some(w) => grid_defined(year, month) && is_month_grid(
                year,
                month,
                w@.map_values(|row: Vec<Date>| row@),
            ),
            None => !grid_defined(year, month),
        },
{
    if !(MIN_YEAR <= year && year <= MAX_YEAR && 1 <= month && month <= 12) {
        return None;
    }
    let first = Date { year, month, day: 1 };
    let offset = weekday_of(first);
    let start = match add_days(first, 0 - (offset as i64)) {
        Some(d) => d,
        None => {
            return None;
        },
    };
    let ghost gs = grid_start(year, month);
    let mut weeks: Vec<Vec<Date>> = Vec::new();
    let mut row: usize = 0;
    while row < 6
        invariant
            row <= 6,
            valid_date(start),
            valid_date(first_of_month(year, month)),
            gs == grid_start(year, month),
            date_number(start) == gs,
            in_chrono_range(gs),
            weeks@.len() == row,
            forall|r: int| 0 <= r < row ==> (#[trigger] weeks@[r])@.len() == 7,
            forall|r: int, c: int|
                0 <= r < row && 0 <= c < 7 ==> valid_date(#[trigger] weeks@[r]@[c])
                    && date_number(weeks@[r]@[c]) == gs + 7 * r + c,
            row > 0 ==> in_chrono_range(gs + 7 * row - 1),
        decreases 6 - row,
    {
        let mut week: Vec<Date> = Vec::new();
        let mut col: usize = 0;
        while col < 7
            invariant
                row < 6,
                col <= 7,
                valid_date(start),
                gs == grid_start(year, month),
                date_number(start) == gs,
                in_chrono_range(gs),
                week@.len() == col,
                forall|c: int|
                    0 <= c < col ==> valid_date(#[trigger] week@[c]) && date_number(week@[c])
                        == gs + 7 * row + c,
                col > 0 ==> in_chrono_range(gs + 7 * row + col - 1),
            decreases 7 - col,
        {
            match add_days(start, (row * 7 + col) as i64) {
                Some(d) => {
                    week.push(d);
                },
                None => {
                    assert(!in_chrono_range(gs + 7 * row + col));
                    return None;
                },
            }
            col = col + 1;
        }
        weeks.push(week);
        row = row + 1;
    }
    assert(grid_defined(year, month));
    assert(is_month_grid(year, month, weeks@.map_values(|row: Vec<Date>| row@)));
    Some(weeks)
}

/// Builds the 6 × 7 grid of days (Sunday to Saturday) shown for a month.
pub fn build_calendar_weeks(year: i32, month: u32) -> (r: Vec<Vec<Date>>)
    requires
        grid_defined(year, month),
    ensures
        is_month_grid(year, month, r@.map_values(|row: Vec<Date>| row@)),
{
    match calendar_weeks(year, month) {
        Some(w) => w,
        None => Vec::new(),
    }
}

/// Days before year `yy` counted from a fixed origin, when years begin in
/// March: 365 a year plus the leap days.
spec fn year_days(yy: int) -> int {
    365 * yy + yy / 4 - yy / 100 + yy / 400
}

/// Days from March 1 to the first day of month `mp` counted from March = 0.
spec fn month_days(mp: int) -> int {
    (153 * mp + 2) / 5
}

proof fn lemma_day_number_shape(y: int, m: int, d: int)
    ensures
        day_number(y, m, d) == (if m <= 2 {
            year_days(y - 1) + month_days(m + 9)
        } else {
            year_days(y) + month_days(m - 3)
        }) + d - 1 - 719468,
{
    let yy = if m <= 2 {
        y - 1
    } else {
        y
    };
    let era = yy / 400;
    let yoe = yy - era * 400;
    assert(0 <= yoe < 400);
    assert(yy / 4 == era * 100 + yoe / 4) by (nonlinear_arith)
        requires
            yy == era * 400 + yoe,
            0 <= yoe < 400,
    ;
    assert(yy / 100 == era * 4 + yoe / 100) by (nonlinear_arith)
        requires
            yy == era * 400 + yoe,
            0 <= yoe < 400,
    ;
}

proof fn lemma_year_days_step(yy: int)
    ensures
        year_days(yy + 1) == year_days(yy) + 365 + (if is_leap(yy + 1) {
            1int
        } else {
            0
        }),
{
}

proof fn lemma_year_days_mono(a: int, b: int)
    requires
        a <= b,
    ensures
        year_days(a) <= year_days(b),
{
}

proof fn lemma_month_days_mono(a: int, b: int)
    requires
        a <= b,
    ensures
        month_days(a) <= month_days(b),
{
}

/// Each month of a year starts `days_in_month` days after the one before,
/// counted from March.
proof fn lemma_month_days_step(y: int, m: int)
    requires
        1 <= m <= 12,
        m != 2,
    ensures
        month_days(if m <= 2 { m + 9 } else { m - 3 }) + days_in_month(y, m) == month_days(
            if m <= 2 {
                m + 10
            } else {
                m - 2
            },
        ),
{
}

/// A valid date lies between the first day of its year and the first day of
/// the next.
proof fn lemma_date_in_year(x: Date)
    requires
        valid_date(x),
    ensures
        day_number(x.year as int, 1, 1) <= date_number(x) < day_number(x.year + 1, 1, 1),
{
    let y = x.year as int;
    lemma_day_number_shape(y, x.month as int, x.day as int);
    lemma_day_number_shape(y, 1, 1);
    lemma_day_number_shape(y + 1, 1, 1);
    lemma_year_days_step(y - 1);
    if x.month >= 3 {
        lemma_month_days_mono(x.month - 3, 9);
    }
}

/// Distinct valid dates have distinct day numbers.
proof fn lemma_date_number_injective(a: Date, b: Date)
    requires
        valid_date(a),
        valid_date(b),
        date_number(a) == date_number(b),
    ensures
        a == b,
{
    lemma_date_in_year(a);
    lemma_date_in_year(b);
    lemma_day_number_shape(a.year + 1, 1, 1);
    lemma_day_number_shape(b.year + 1, 1, 1);
    lemma_day_number_shape(a.year as int, 1, 1);
    lemma_day_number_shape(b.year as int, 1, 1);
    if a.year < b.year {
        lemma_year_days_mono(a.year as int, b.year - 1);
    } else if b.year < a.year {
        lemma_year_days_mono(b.year as int, a.year - 1);
    }
    assert(a.year == b.year);
    let y = a.year as int;
    lemma_day_number_shape(y, a.month as int, a.day as int);
    lemma_day_number_shape(y, b.month as int, b.day as int);
    lemma_year_days_step(y - 1);
    if a.month != b.month {
        let (p, q) = if a.month < b.month {
            (a, b)
        } else {
            (b, a)
        };
        if q.month <= 2 || p.month >= 3 {
            lemma_month_days_step(y, p.month as int);
            let mp = if p.month <= 2 {
                p.month + 10
            } else {
                p.month - 2
            };
            let mq = if q.month <= 2 {
                q.month + 9
            } else {
                q.month - 3
            };
            lemma_month_days_mono(mp, mq);
        } else {
            lemma_month_days_mono(p.month + 9, 11);
        }
        assert(false);
    }
}

/// A valid date before another has the smaller day number.
proof fn lemma_before_smaller(a: Date, b: Date)
    requires
        valid_date(a),
        valid_date(b),
        date_before(a, b),
    ensures
        date_number(a) < date_number(b),
{
    lemma_date_in_year(a);
    lemma_date_in_year(b);
    lemma_day_number_shape(a.year + 1, 1, 1);
    lemma_day_number_shape(b.year as int, 1, 1);
    if a.year < b.year {
        lemma_year_days_mono(a.year as int, b.year - 1);
    } else {
        let y = a.year as int;
        lemma_day_number_shape(y, a.month as int, a.day as int);
        lemma_day_number_shape(y, b.month as int, b.day as int);
        lemma_day_number_shape(y, 1, 1);
        lemma_year_days_step(y - 1);
        if a.month < b.month {
            if b.month <= 2 || a.month >= 3 {
                lemma_month_days_step(y, a.month as int);
                let mp = if a.month <= 2 {
                    a.month + 10
                } else {
                    a.month - 2
                };
                let mq = if b.month <= 2 {
                    b.month + 9
                } else {
                    b.month - 3
                };
                lemma_month_days_mono(mp, mq);
            } else {
                lemma_month_days_mono(a.month + 9, 11);
            }
        }
    }
}

/// Chronological order is the order of day numbers: for valid dates, `a`
/// comes before `b` exactly when it has the smaller day number, that is,
/// when fewer days have passed from 1970-01-01 to it.
pub proof fn lemma_before_is_fewer_days(a: Date, b: Date)
    requires
        valid_date(a),
        valid_date(b),
    ensures
        date_before(a, b) <==> date_number(a) < date_number(b),
{
    if date_before(a, b) {
        lemma_before_smaller(a, b);
    } else if a != b {
        assert(date_before(b, a));
        lemma_before_smaller(b, a);
    }
}

/// The `yy` token of a year from 0 on gives exactly two digits, whose value
/// is the year modulo 100 (1999 gives `99`, 2005 gives `05`).
pub proof fn lemma_two_digit_year(d: Date)
    requires
        d.year >= 0,
    ensures
        format_date(d, seq!['y', 'y']).len() == 2,
        crate::text::all_digits(format_date(d, seq!['y', 'y'])),
        crate::text::digits_value(format_date(d, seq!['y', 'y'])) == d.year % 100,
{
    let f = seq!['y', 'y'];
    let n = (d.year % 100) as nat;
    assert(f.skip(2) =~= Seq::<char>::empty());
    assert(!run_at(f, 'y', 4));
    assert(run_at(f, 'y', 2));
    assert(format_date(d, f.skip(2)) == Seq::<char>::empty());
    let t = zero_padded(n, 2);
    assert(format_date(d, f) =~= t);
    let hi: nat = n / 10;
    let lo: nat = n % 10;
    let (c0, c1) = if n < 10 {
        ('0', crate::text::digit_char(n))
    } else {
        (crate::text::digit_char(hi), crate::text::digit_char(lo))
    };
    if n < 10 {
        assert(decimal(n) == seq![crate::text::digit_char(n)]);
        assert(t =~= seq![c0, c1]);
    } else {
        assert(hi < 10);
        assert(decimal(hi) == seq![crate::text::digit_char(hi)]);
        assert(decimal(n) == seq![crate::text::digit_char(hi)].push(crate::text::digit_char(lo)));
        assert(t =~= seq![c0, c1]);
    }
    assert(t.drop_last() =~= seq![c0]);
    assert(seq![c0].drop_last() =~= Seq::<char>::empty());
    assert(crate::text::digits_value(Seq::<char>::empty()) == 0);
    assert(crate::text::digits_value(seq![c0]) == ((c0 as u32) - 48) as nat);
    assert(crate::text::digits_value(t) == ((c0 as u32) - 48) as nat * 10 + ((c1 as u32) - 48) as nat);
    assert(n == hi * 10 + lo);
}

/// `7 * q + c` leaves the remainder `c` when `0 <= c < 7`.
proof fn lemma_mod7(q: int, c: int)
    requires
        0 <= c < 7,
    ensures
        (7 * q + c) % 7 == c,
{
    vstd::arithmetic::div_mod::lemma_mod_multiples_vanish(q, c, 7);
    vstd::arithmetic::div_mod::lemma_small_mod(c as nat, 7);
}

/// In the month grid each column holds one day of the week: column 0 the
/// Sundays, column 6 the Saturdays.
pub proof fn lemma_grid_columns_are_weekdays(
    year: i32,
    month: u32,
    weeks: Seq<Seq<Date>>,
    row: int,
    col: int,
)
    requires
        is_month_grid(year, month, weeks),
        0 <= row < 6,
        0 <= col < 7,
    ensures
        weekday_from_sunday(weeks[row][col].year, weeks[row][col].month, weeks[row][col].day)
            == col,
{
    let d = day_number(year as int, month as int, 1) + 4;
    let q = d / 7;
    assert(d == 7 * q + d % 7);
    assert(date_number(weeks[row][col]) + 4 == 7 * (q + row) + col);
    lemma_mod7(q + row, col);
}

/// The month grid shows every day of the month: day `day` stands at position
/// `weekday of the 1st + day - 1`, counted row by row from the top left.
pub proof fn lemma_grid_holds_month(year: i32, month: u32, weeks: Seq<Seq<Date>>, day: u32)
    requires
        is_month_grid(year, month, weeks),
        valid_date(first_of_month(year, month)),
        1 <= day <= days_in_month(year as int, month as int),
    ensures
        ({
            let k = weekday_from_sunday(year, month, 1) + day - 1;
            &&& 0 <= k < 42
            &&& weeks[k / 7][k % 7] == Date { year, month, day }
        }),
{
    let k = weekday_from_sunday(year, month, 1) + day - 1;
    let x = Date { year, month, day };
    assert(date_number(x) == day_number(year as int, month as int, 1) + day - 1);
    assert(k == 7 * (k / 7) + k % 7);
    lemma_date_number_injective(weeks[k / 7][k % 7], x);
}

/// Every month of the years strictly inside chrono's range has its grid.
pub proof fn lemma_grid_defined_inside_range(year: i32, month: u32)
    requires
        MIN_YEAR < year < MAX_YEAR,
        1 <= month <= 12,
    ensures
        grid_defined(year, month),
{
    let first = first_of_month(year, month);
    lemma_date_in_year(first);
    lemma_day_number_shape(year as int, 1, 1);
    lemma_day_number_shape(year + 1, 1, 1);
    lemma_day_number_shape(MIN_YEAR as int, 1, 1);
    lemma_day_number_shape(MIN_YEAR + 1, 1, 1);
    lemma_day_number_shape(MAX_YEAR as int, 1, 1);
    lemma_day_number_shape(MAX_YEAR as int, 12, 31);
    lemma_year_days_step(MIN_YEAR as int - 1);
    lemma_year_days_mono(MIN_YEAR as int, year - 1);
    lemma_year_days_mono(year as int, MAX_YEAR - 1);
}

} // verus!
