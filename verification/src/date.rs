//! Calendar dates, as the date prompt handles them, and what `chrono` computes
//! of them.
//!
//! A date is held as its day number in the proleptic Gregorian calendar
//! (January 1 of year 1 is day 1), as chrono counts them; moving by days is
//! arithmetic on that number, and dates compare as their numbers do.

use crate::decimal::spec_decimal;
use crate::strings::push_str;
use chrono::Datelike;
use vstd::prelude::*;
use vstd::string::StrSliceExecFns;

verus! {

/// A calendar date, by its day number (January 1 of year 1 is day 1).
#[derive(Copy, Clone, Debug, PartialEq, Eq, Structural)]
pub struct CalendarDate {
    /// The day number.
    pub days: i32,
}

/// A day of the week.
#[derive(Copy, Clone, Debug, PartialEq, Eq, Structural)]
pub enum Weekday {
    /// Monday.
    Mon,
    /// Tuesday.
    Tue,
    /// Wednesday.
    Wed,
    /// Thursday.
    Thu,
    /// Friday.
    Fri,
    /// Saturday.
    Sat,
    /// Sunday.
    Sun,
}

/// Days since Monday.
pub open spec fn spec_weekday_index(w: Weekday) -> u32 {
    match w {
        Weekday::Mon => 0,
        Weekday::Tue => 1,
        Weekday::Wed => 2,
        Weekday::Thu => 3,
        Weekday::Fri => 4,
        Weekday::Sat => 5,
        Weekday::Sun => 6,
    }
}

/// The weekday `i` days after Monday (`i` below 7).
pub open spec fn spec_weekday_from_index(i: u32) -> Weekday {
    if i == 0 { Weekday::Mon }
    else if i == 1 { Weekday::Tue }
    else if i == 2 { Weekday::Wed }
    else if i == 3 { Weekday::Thu }
    else if i == 4 { Weekday::Fri }
    else if i == 5 { Weekday::Sat }
    else { Weekday::Sun }
}

impl Weekday {
    /// Days since Monday.
    pub fn index(&self) -> (r: u32)
        ensures
            r == spec_weekday_index(*self),
    {
        match self {
            Weekday::Mon => 0,
            Weekday::Tue => 1,
            Weekday::Wed => 2,
            Weekday::Thu => 3,
            Weekday::Fri => 4,
            Weekday::Sat => 5,
            Weekday::Sun => 6,
        }
    }

    /// The next day of the week.
    pub fn succ(&self) -> (r: Weekday)
        ensures
            spec_weekday_index(r) == (spec_weekday_index(*self) + 1) % 7,
    {
        match self {
            Weekday::Mon => Weekday::Tue,
            Weekday::Tue => Weekday::Wed,
            Weekday::Wed => Weekday::Thu,
            Weekday::Thu => Weekday::Fri,
            Weekday::Fri => Weekday::Sat,
            Weekday::Sat => Weekday::Sun,
            Weekday::Sun => Weekday::Mon,
        }
    }

    /// The first two letters of the day's English name, lower-cased, as the
    /// calendar's week header shows them.
    pub fn short_name(&self) -> (r: &'static str)
        ensures
            r@ == spec_short_name(*self),
    {
        match self {
            Weekday::Mon => "mo",
            Weekday::Tue => "tu",
            Weekday::Wed => "we",
            Weekday::Thu => "th",
            Weekday::Fri => "fr",
            Weekday::Sat => "sa",
            Weekday::Sun => "su",
        }
    }
}

/// The first two letters of a day's English name, lower-cased.
pub open spec fn spec_short_name(w: Weekday) -> Seq<char> {
    match w {
        Weekday::Mon => "mo"@,
        Weekday::Tue => "tu"@,
        Weekday::Wed => "we"@,
        Weekday::Thu => "th"@,
        Weekday::Fri => "fr"@,
        Weekday::Sat => "sa"@,
        Weekday::Sun => "su"@,
    }
}

/// Whether chrono has a date with this day number: from January 1, 262144 BCE
/// (day -95746129) to December 31, 262142 CE (day 95745399), day 1 being
/// January 1 of the year 1.
pub open spec fn spec_valid_days(days: i32) -> bool {
    -95746129 <= days <= 95745399
}

/// The year, month (1 to 12) and day of month of a valid day number, as chrono gives them.
pub uninterp spec fn spec_date_parts(days: i32) -> (i32, u32, u32);

/// The day number of a year, month and day, when chrono has that date.
pub uninterp spec fn spec_from_ymd(year: i32, month: u32, day: u32) -> Option<i32>;

/// The date with the month (counted from zero) replaced, when it exists.
pub uninterp spec fn spec_with_month0(days: i32, month0: u32) -> Option<i32>;

/// The date with the year replaced, when it exists.
pub uninterp spec fn spec_with_year(days: i32, year: i32) -> Option<i32>;

/// Days since Monday of a valid day number: day 1 (January 1 of the year 1)
/// was a Monday.
pub open spec fn spec_weekday(days: i32) -> u32 {
    ((days as int - 1) % 7) as u32
}

/// The English name of a month (1 to 12).
pub open spec fn spec_month_name(month: u32) -> Seq<char> {
    if month == 1 { "January"@ }
    else if month == 2 { "February"@ }
    else if month == 3 { "March"@ }
    else if month == 4 { "April"@ }
    else if month == 5 { "May"@ }
    else if month == 6 { "June"@ }
    else if month == 7 { "July"@ }
    else if month == 8 { "August"@ }
    else if month == 9 { "September"@ }
    else if month == 10 { "October"@ }
    else if month == 11 { "November"@ }
    else { "December"@ }
}

/// `s` with zeros in front up to `width` characters.
pub open spec fn spec_zero_padded(s: Seq<char>, width: nat) -> Seq<char> {
    if s.len() < width { Seq::new((width - s.len()) as nat, |i: int| '0') + s } else { s }
}

/// A year as "%Y" writes it: four digits, zero-padded, from year 0 to 9999;
/// otherwise its sign and at least four digits.
pub open spec fn spec_year_text(year: int) -> Seq<char> {
    if 0 <= year <= 9999 {
        spec_zero_padded(spec_decimal(year as nat), 4)
    } else if year > 9999 {
        "+"@ + spec_zero_padded(spec_decimal(year as nat), 4)
    } else {
        "-"@ + spec_zero_padded(spec_decimal((-year) as nat), 4)
    }
}

/// The text of a date in the long format "%B %-e, %Y" (as "July 3, 2021"):
/// the month's English name, the day without padding, a comma and the year.
pub open spec fn spec_long_format(days: i32) -> Seq<char> {
    let (year, month, day) = spec_date_parts(days);
    spec_month_name(month) + " "@ + spec_decimal(day as nat) + ", "@ + spec_year_text(year as int)
}

/// Tells whether chrono has a date with day number `days`, with
/// `NaiveDate::from_num_days_from_ce_opt`.
///
/// Trusted: the answer is the one `spec_valid_days` states, the range of
/// chrono's `NaiveDate::MIN` to `NaiveDate::MAX`.
#[verifier::external_body]
pub(crate) fn is_valid_days(days: i32) -> (r: bool)
    ensures
        r == spec_valid_days(days),
{
    chrono::NaiveDate::from_num_days_from_ce_opt(days).is_some()
}

/// The year, month and day of a date, with `Datelike::year`, `month` and `day`.
///
/// Trusted: the parts are those named by `spec_date_parts`; the month is between
/// 1 and 12 and the day between 1 and 31, as chrono documents.
#[verifier::external_body]
pub(crate) fn date_parts(date: CalendarDate) -> (r: (i32, u32, u32))
    requires
        spec_valid_days(date.days),
    ensures
        r == spec_date_parts(date.days),
        1 <= r.1 <= 12,
        1 <= r.2 <= 31,
{
    let d = chrono::NaiveDate::from_num_days_from_ce_opt(date.days).unwrap();
    (d.year(), d.month(), d.day())
}

/// The date of a year, month and day, with `NaiveDate::from_ymd_opt`.
///
/// Trusted: the day number is the one named by `spec_from_ymd`, and it is a
/// valid one.
#[verifier::external_body]
pub(crate) fn date_from_ymd(year: i32, month: u32, day: u32) -> (r: Option<CalendarDate>)
    ensures
        r matches Some(d) ==> spec_valid_days(d.days),
        match r {
            Some(d) => spec_from_ymd(year, month, day) == Some(d.days),
            None => spec_from_ymd(year, month, day) is None,
        },
{
    chrono::NaiveDate::from_ymd_opt(year, month, day).map(|d| CalendarDate { days: d.num_days_from_ce() })
}

/// The date with its month replaced, with `Datelike::with_month0`.
///
/// Trusted: the result is the one named by `spec_with_month0`, a valid date.
#[verifier::external_body]
pub(crate) fn with_month0(date: CalendarDate, month0: u32) -> (r: Option<CalendarDate>)
    requires
        spec_valid_days(date.days),
    ensures
        r matches Some(d) ==> spec_valid_days(d.days),
        match r {
            Some(d) => spec_with_month0(date.days, month0) == Some(d.days),
            None => spec_with_month0(date.days, month0) is None,
        },
{
    let d = chrono::NaiveDate::from_num_days_from_ce_opt(date.days).unwrap();
    d.with_month0(month0).map(|d| CalendarDate { days: d.num_days_from_ce() })
}

/// The date with its year replaced, with `Datelike::with_year`.
///
/// Trusted: the result is the one named by `spec_with_year`, a valid date.
#[verifier::external_body]
pub(crate) fn with_year(date: CalendarDate, year: i32) -> (r: Option<CalendarDate>)
    requires
        spec_valid_days(date.days),
    ensures
        r matches Some(d) ==> spec_valid_days(d.days),
        match r {
            Some(d) => spec_with_year(date.days, year) == Some(d.days),
            None => spec_with_year(date.days, year) is None,
        },
{
    let d = chrono::NaiveDate::from_num_days_from_ce_opt(date.days).unwrap();
    d.with_year(year).map(|d| CalendarDate { days: d.num_days_from_ce() })
}

/// The day of the week of a date, with `Datelike::weekday` and
/// `Weekday::num_days_from_monday`.
///
/// Trusted: the number is the one `spec_weekday` states, below 7.
#[verifier::external_body]
pub(crate) fn weekday_of(date: CalendarDate) -> (r: u32)
    requires
        spec_valid_days(date.days),
    ensures
        r == spec_weekday(date.days),
        r < 7,
{
    chrono::NaiveDate::from_num_days_from_ce_opt(date.days).unwrap().weekday().num_days_from_monday()
}

/// The English name of a month, with `chrono::Month::name`.
///
/// Trusted: the name is the one `spec_month_name` states.
#[verifier::external_body]
pub(crate) fn month_name(month: u32) -> (r: String)
    requires
        1 <= month <= 12,
    ensures
        r@ == spec_month_name(month),
{
    String::from(chrono::Month::try_from(month as u8).unwrap().name())
}

/// The current local date, with `chrono::Local::now`.
///
/// Trusted: the date is a valid one; which one it is depends on the clock.
#[verifier::external_body]
pub(crate) fn today() -> (r: CalendarDate)
    ensures
        spec_valid_days(r.days),
{
    CalendarDate { days: chrono::Local::now().date_naive().num_days_from_ce() }
}

/// Formats a date as "%B %-e, %Y" with `NaiveDate::format`.
///
/// Trusted: chrono writes the full month name, the day without padding and
/// the year zero-padded to four digits (with a sign outside 0 to 9999), as
/// [spec_long_format] states.
#[verifier::external_body]
pub(crate) fn long_format(date: CalendarDate) -> (r: String)
    requires
        spec_valid_days(date.days),
    ensures
        r@ == spec_long_format(date.days),
{
    chrono::NaiveDate::from_num_days_from_ce_opt(date.days).unwrap().format("%B %-e, %Y").to_string()
}

impl CalendarDate {
    /// The date with the given year, month (1 to 12) and day, when chrono has it.
    pub fn from_ymd(year: i32, month: u32, day: u32) -> (r: Option<CalendarDate>)
        ensures
            r matches Some(d) ==> spec_valid_days(d.days),
            match r {
                Some(d) => spec_from_ymd(year, month, day) == Some(d.days),
                None => spec_from_ymd(year, month, day) is None,
            },
    {
        date_from_ymd(year, month, day)
    }

    /// The date with day number `days`, when chrono has it.
    pub fn from_days(days: i32) -> (r: Option<CalendarDate>)
        ensures
            r matches Some(d) ==> d.days == days,
            r is Some <==> spec_valid_days(days),
    {
        if is_valid_days(days) {
            Some(CalendarDate { days })
        } else {
            None
        }
    }
}

/// The date `n` days after `date` (before it, for negative `n`), when chrono has it.
pub fn shift_days(date: CalendarDate, n: i32) -> (r: Option<CalendarDate>)
    ensures
        r matches Some(d) ==> d.days == date.days + n && spec_valid_days(d.days),
        r is None ==> date.days + n < i32::MIN || date.days + n > i32::MAX || !spec_valid_days((date.days + n) as i32),
{
    match date.days.checked_add(n) {
        Some(days) => {
            if is_valid_days(days) {
                Some(CalendarDate { days })
            } else {
                None
            }
        },
        None => None,
    }
}

/// `text` centered in a field of `width` characters: the spaces missing are
/// split with the extra one on the right.
pub open spec fn spec_centered(text: Seq<char>, width: nat) -> Seq<char> {
    if text.len() >= width {
        text
    } else {
        let pad = (width - text.len()) as nat;
        Seq::new(pad / 2, |i: int| ' ') + text + Seq::new((pad - pad / 2) as nat, |i: int| ' ')
    }
}

/// Centers `text` in a field of `width` characters, as the `{:^width}` format does.
pub fn centered(text: &str, width: usize) -> (r: String)
    ensures
        r@ == spec_centered(text@, width as nat),
{
    let len = text.unicode_len();
    if len >= width {
        return crate::strings::to_owned_string(text);
    }
    let pad = width - len;
    let mut r = String::new();
    let mut i: usize = 0;
    while i < pad / 2
        invariant
            i <= pad / 2,
            r@ == Seq::new(i as nat, |k: int| ' '),
        decreases pad / 2 - i,
    {
        crate::strings::push_char(&mut r, ' ');
        assert(r@ =~= Seq::new((i + 1) as nat, |k: int| ' '));
        i = i + 1;
    }
    push_str(&mut r, text);
    let mut j: usize = 0;
    let ghost head = r@;
    while j < pad - pad / 2
        invariant
            j <= pad - pad / 2,
            r@ == head + Seq::new(j as nat, |k: int| ' '),
        decreases pad - pad / 2 - j,
    {
        crate::strings::push_char(&mut r, ' ');
        assert(r@ =~= head + Seq::new((j + 1) as nat, |k: int| ' '));
        j = j + 1;
    }
    r
}

} // verus!
