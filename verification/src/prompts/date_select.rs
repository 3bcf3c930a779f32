//! Picking a date on a calendar, driven by the keys of a termion terminal.

use super::PromptStep;
use crate::date::{
    date_parts, long_format, shift_days, spec_date_parts, spec_valid_days, spec_with_month0,
    spec_with_year, today, with_month0, with_year, CalendarDate, Weekday,
};
use crate::error::{InquireError, InquireResult};
use crate::strings::to_owned_string;
use crate::multiselect::TermKey;
use crate::ui::backend::{
    calendar_head_pieces, calendar_weeks_pieces, error_line_text, help_line_pieces, help_line_text, newline_text,
    prompt_text, spec_calendar_head, spec_calendar_start, spec_days_valid, spec_weeks_text, Backend, CommonBackend,
    DateSelectBackend,
};
use crate::ui::renderer::{pieces_sent, Piece};
use crate::ui::StyleSheet;
use crate::date::{spec_from_ymd, spec_long_format, spec_weekday_index};
use vstd::prelude::*;

verus! {

/// Help message shown by default.
pub const DATE_SELECT_DEFAULT_HELP_MESSAGE: &'static str =
    "arrows to move days, wasd to move months and years, enter to select";

/// Why a date prompt cannot start: a date that is not one of the calendar.
pub const DATE_SELECT_INVALID_DATE_MESSAGE: &'static str = "The dates must be dates of the calendar";

/// Why a date prompt cannot start: the earliest date comes after the starting date.
pub const DATE_SELECT_MIN_DATE_MESSAGE: &'static str = "Min date can not be greater than starting date";

/// Why a date prompt cannot start: the latest date comes before the starting date.
pub const DATE_SELECT_MAX_DATE_MESSAGE: &'static str = "Max date can not be smaller than starting date";

/// Whether the starting date and the bounds are all dates of the calendar.
pub open spec fn spec_dates_valid(so: DateSelect) -> bool {
    &&& spec_valid_days(so.starting_date.days)
    &&& so.min_date matches Some(m) ==> spec_valid_days(m.days)
    &&& so.max_date matches Some(m) ==> spec_valid_days(m.days)
}

/// Formats a date.
pub trait DateFormatter {
    /// Whether `text` is what the formatter shows for `date`; unless the
    /// formatter says more, nothing is known of it.
    closed spec fn spec_formats(&self, date: CalendarDate, text: Seq<char>) -> bool {
        true
    }

    /// The text shown for `date`.
    fn format(&self, date: CalendarDate) -> (r: String)
        ensures
            self.spec_formats(date, r@),
    ;
}

/// Shows a date as "%B %-e, %Y" (as "July 3, 2021").
#[derive(Copy, Clone, Debug)]
pub struct LongDateFormatter;

impl DateFormatter for LongDateFormatter {
    open spec fn spec_formats(&self, date: CalendarDate, text: Seq<char>) -> bool {
        text == if spec_valid_days(date.days) { spec_long_format(date.days) } else { Seq::empty() }
    }

    /// The long form of a date chrono has; an empty text for any other.
    fn format(&self, date: CalendarDate) -> (r: String)
        ensures
            spec_valid_days(date.days) ==> r@ == spec_long_format(date.days),
            !spec_valid_days(date.days) ==> r@ == Seq::<char>::empty(),
    {
        if crate::date::is_valid_days(date.days) {
            long_format(date)
        } else {
            String::new()
        }
    }
}

/// Validates a date; an error carries the message shown.
pub trait DateValidator {
    /// Whether the validator may give `outcome` for `date`: `None` when it
    /// accepts the date, `Some(m)` when it refuses it with the message `m`;
    /// unless the validator says more, nothing is known of it.
    closed spec fn spec_gives(&self, date: CalendarDate, outcome: Option<Seq<char>>) -> bool {
        true
    }

    /// Accepts the date, or explains why not.
    fn validate(&self, date: CalendarDate) -> (r: Result<(), String>)
        ensures
            self.spec_gives(date, match r { Ok(()) => None, Err(m) => Some(m@) }),
    ;
}

/// Whether running the validators in order on `date` may end with `outcome`:
/// `None` when every one accepts it, `Some(m)` when the first that refuses it
/// does so with `m` (those before it accepting it).
pub open spec fn spec_validators_give<'a>(validators: Seq<&'a dyn DateValidator>, date: CalendarDate, outcome: Option<Seq<char>>) -> bool
    decreases validators.len(),
{
    if validators.len() == 0 {
        outcome is None
    } else {
        ||| validators[0].spec_gives(date, None) && spec_validators_give(validators.drop_first(), date, outcome)
        ||| outcome is Some && validators[0].spec_gives(date, outcome)
    }
}

/// Prompt for a date, picked on a calendar.
pub struct DateSelect<'a> {
    /// Message presented to the user.
    pub message: &'a str,
    /// First day of the calendar's weeks.
    pub week_start: Weekday,
    /// Date selected at the start.
    pub starting_date: CalendarDate,
    /// Earliest date that can be selected.
    pub min_date: Option<CalendarDate>,
    /// Latest date that can be selected.
    pub max_date: Option<CalendarDate>,
    /// Help message.
    pub help_message: Option<&'a str>,
    /// Whether `hjkl` also move the selection.
    pub vim_mode: bool,
    /// Formats the final answer.
    pub formatter: &'a dyn DateFormatter,
    /// Validators of the date, applied in order.
    pub validators: Vec<&'a dyn DateValidator>,
}

impl<'a> DateSelect<'a> {
    /// A prompt with the given message, starting on today's date, weeks from
    /// Sunday, vim mode on, the default help message and no bounds.
    pub fn new(message: &'a str) -> (r: Self)
        ensures
            r.message == message,
            r.week_start == Weekday::Sun,
            spec_valid_days(r.starting_date.days),
            r.min_date is None,
            r.max_date is None,
            r.help_message == Some(DATE_SELECT_DEFAULT_HELP_MESSAGE),
            r.vim_mode,
    {
        DateSelect {
            message,
            week_start: Weekday::Sun,
            starting_date: today(),
            min_date: None,
            max_date: None,
            help_message: Some(DATE_SELECT_DEFAULT_HELP_MESSAGE),
            vim_mode: true,
            formatter: &LongDateFormatter,
            validators: Vec::new(),
        }
    }

    /// Sets the help message.
    pub fn with_help_message(self, message: &'a str) -> (r: Self)
        ensures
            r.help_message == Some(message), r.message == self.message, r.starting_date == self.starting_date,
            r.min_date == self.min_date, r.max_date == self.max_date, r.week_start == self.week_start,
            r.vim_mode == self.vim_mode,
    {
        let mut s = self;
        s.help_message = Some(message);
        s
    }

    /// Removes the help message.
    pub fn without_help_message(self) -> (r: Self)
        ensures
            r.help_message is None, r.message == self.message, r.starting_date == self.starting_date,
            r.min_date == self.min_date, r.max_date == self.max_date, r.week_start == self.week_start,
            r.vim_mode == self.vim_mode,
    {
        let mut s = self;
        s.help_message = None;
        s
    }

    /// Sets the date selected at the start.
    pub fn with_default(self, default: CalendarDate) -> (r: Self)
        ensures
            r.starting_date == default, r.message == self.message, r.help_message == self.help_message,
            r.min_date == self.min_date, r.max_date == self.max_date, r.week_start == self.week_start,
            r.vim_mode == self.vim_mode,
    {
        let mut s = self;
        s.starting_date = default;
        s
    }

    /// Sets the first day of the calendar's weeks.
    pub fn with_week_start(self, week_start: Weekday) -> (r: Self)
        ensures
            r.week_start == week_start, r.message == self.message, r.help_message == self.help_message,
            r.min_date == self.min_date, r.max_date == self.max_date, r.starting_date == self.starting_date,
            r.vim_mode == self.vim_mode,
    {
        let mut s = self;
        s.week_start = week_start;
        s
    }

    /// Sets the earliest date that can be selected.
    pub fn with_min_date(self, min_date: CalendarDate) -> (r: Self)
        ensures
            r.min_date == Some(min_date), r.message == self.message, r.help_message == self.help_message,
            r.week_start == self.week_start, r.max_date == self.max_date, r.starting_date == self.starting_date,
            r.vim_mode == self.vim_mode,
    {
        let mut s = self;
        s.min_date = Some(min_date);
        s
    }

    /// Sets the latest date that can be selected.
    pub fn with_max_date(self, max_date: CalendarDate) -> (r: Self)
        ensures
            r.max_date == Some(max_date), r.message == self.message, r.help_message == self.help_message,
            r.week_start == self.week_start, r.min_date == self.min_date, r.starting_date == self.starting_date,
            r.vim_mode == self.vim_mode,
    {
        let mut s = self;
        s.max_date = Some(max_date);
        s
    }

    /// Adds a validator, applied after those already set.
    pub fn with_validator(self, validator: &'a dyn DateValidator) -> (r: Self)
        ensures
            r.validators@ == self.validators@.push(validator),
            r.message == self.message, r.help_message == self.help_message, r.week_start == self.week_start,
            r.min_date == self.min_date, r.max_date == self.max_date, r.starting_date == self.starting_date,
            r.vim_mode == self.vim_mode,
    {
        let mut s = self;
        s.validators.push(validator);
        s
    }

    /// Adds validators, in order, after those already set.
    pub fn with_validators(self, validators: &[&'a dyn DateValidator]) -> (r: Self)
        ensures
            r.validators@ == self.validators@ + validators@,
            r.message == self.message, r.help_message == self.help_message, r.week_start == self.week_start,
            r.min_date == self.min_date, r.max_date == self.max_date, r.starting_date == self.starting_date,
            r.vim_mode == self.vim_mode,
    {
        let mut s = self;
        s.validators.extend_from_slice(validators);
        proof {
            assert forall|k: int| 0 <= k < s.validators@.len() implies #[trigger] s.validators@[k]
                == (self.validators@ + validators@)[k] by {
                if k >= self.validators@.len() {
                    let j = k - self.validators@.len();
                    assert(cloned::<&'a dyn DateValidator>(validators@[j], s.validators@[k]));
                }
            }
            assert(s.validators@ =~= self.validators@ + validators@);
        }
        s
    }

    /// Enables or disables vim mode.
    pub fn with_vim_mode(self, vim_mode: bool) -> (r: Self)
        ensures
            r.vim_mode == vim_mode, r.message == self.message, r.help_message == self.help_message,
            r.week_start == self.week_start, r.min_date == self.min_date, r.max_date == self.max_date,
            r.starting_date == self.starting_date,
    {
        let mut s = self;
        s.vim_mode = vim_mode;
        s
    }

    /// Sets the formatter.
    pub fn with_formatter(self, formatter: &'a dyn DateFormatter) -> (r: Self)
        ensures
            r.formatter == formatter,
            r.vim_mode == self.vim_mode, r.message == self.message, r.help_message == self.help_message,
            r.week_start == self.week_start, r.min_date == self.min_date, r.max_date == self.max_date,
            r.starting_date == self.starting_date,
    {
        let mut s = self;
        let mut value = formatter;
        std::mem::swap(&mut s.formatter, &mut value);
        s
    }
}

/// The date after clamping into the bounds: not before the earliest, then not
/// after the latest.
pub open spec fn spec_clamp(d: i32, min_date: Option<CalendarDate>, max_date: Option<CalendarDate>) -> i32 {
    let low = match min_date { Some(m) => if d < m.days { m.days } else { d }, None => d };
    match max_date { Some(m) => if low > m.days { m.days } else { low }, None => low }
}

/// How many days a key moves the selection, if it moves it by days: a week up
/// or down, a day left or right (also with `hjkl` in vim mode, and tab for a week
/// down).
pub open spec fn spec_day_shift(key: TermKey, vim_mode: bool) -> Option<i32> {
    match key {
        TermKey::Up => Some(-7i32),
        TermKey::Down => Some(7i32),
        TermKey::Left => Some(-1i32),
        TermKey::Right => Some(1i32),
        TermKey::Char(c) => if c == '\t' {
            Some(7i32)
        } else if vim_mode && c == 'k' {
            Some(-7i32)
        } else if vim_mode && c == 'j' {
            Some(7i32)
        } else if vim_mode && c == 'h' {
            Some(-1i32)
        } else if vim_mode && c == 'l' {
            Some(1i32)
        } else {
            None
        },
        _ => None,
    }
}

/// How many months a key moves the selection, if it moves it by months: `w`
/// and `s` a year back and forth, `a` and `d` a month.
pub open spec fn spec_month_shift(key: TermKey, vim_mode: bool) -> Option<i32> {
    if spec_day_shift(key, vim_mode) is Some {
        None
    } else {
        match key {
            TermKey::Char(c) => if c == 'w' {
                Some(-12i32)
            } else if c == 's' {
                Some(12i32)
            } else if c == 'a' {
                Some(-1i32)
            } else if c == 'd' {
                Some(1i32)
            } else {
                None
            },
            _ => None,
        }
    }
}

/// The month (counted from zero) and year after moving `qty` months (at most a
/// year) from the month `month0` of `year`.
pub open spec fn spec_shifted_month(month0: int, year: int, qty: int) -> (int, int) {
    let years = if qty == 12 { 1int } else if qty == -12 { -1int } else { 0int };
    let months = if qty == 12 || qty == -12 { 0int } else { qty };
    let sum = month0 + months;
    let new_month = if sum < 0 { sum + 12 } else if sum >= 12 { sum - 12 } else { sum };
    (new_month, year + years)
}

/// The selection never leaves the bounds: whatever date a move gives, the
/// clamped date lies between the earliest and the latest date (when the
/// earliest does not come after the latest), and a date already within the
/// bounds is kept as it is.
pub proof fn law_clamp_within_bounds(d: i32, min_date: Option<CalendarDate>, max_date: Option<CalendarDate>)
    requires
        min_date is Some && max_date is Some ==> min_date->0.days <= max_date->0.days,
    ensures
        min_date matches Some(lo) ==> lo.days <= spec_clamp(d, min_date, max_date),
        max_date matches Some(hi) ==> spec_clamp(d, min_date, max_date) <= hi.days,
        (min_date is Some ==> min_date->0.days <= d) && (max_date is Some ==> d <= max_date->0.days)
            ==> spec_clamp(d, min_date, max_date) == d,
        spec_clamp(spec_clamp(d, min_date, max_date), min_date, max_date) == spec_clamp(d, min_date, max_date),
{
}

/// A move by some days followed by the opposite move brings the selection back,
/// when neither move was stopped by a bound.
pub proof fn law_day_moves_undo(d: i32, n: i32, min_date: Option<CalendarDate>, max_date: Option<CalendarDate>)
    requires
        i32::MIN <= d + n <= i32::MAX,
        min_date matches Some(lo) ==> lo.days <= d && lo.days <= d + n,
        max_date matches Some(hi) ==> d <= hi.days && d + n <= hi.days,
    ensures
        spec_clamp((spec_clamp((d + n) as i32, min_date, max_date) - n) as i32, min_date, max_date) == d,
{
}

/// Moving a month (or a year) keeps the month within the year, and the opposite
/// move brings back the month and the year.
pub proof fn law_month_moves_undo(month0: int, year: int, qty: int)
    requires
        0 <= month0 < 12,
        qty == 1 || qty == -1 || qty == 12 || qty == -12,
    ensures
        0 <= spec_shifted_month(month0, year, qty).0 < 12,
        spec_shifted_month(spec_shifted_month(month0, year, qty).0, spec_shifted_month(month0, year, qty).1, -qty)
            == (month0, year),
{
}

/// The date `qty` months (at most a year) after day `days`, keeping the day
/// of the month, when chrono has it.
pub open spec fn spec_month_moved(days: i32, qty: i32) -> Option<i32> {
    let (year, month, day) = spec_date_parts(days);
    let (new_month0, new_year) = spec_shifted_month(month - 1, year as int, qty as int);
    if new_year < i32::MIN || new_year > i32::MAX {
        None
    } else {
        match spec_with_month0(days, new_month0 as u32) {
            Some(d) => spec_with_year(d, new_year as i32),
            None => None,
        }
    }
}

/// The settings a date prompt runs with: the bounds of the dates that can be
/// selected and the first day of the calendar's weeks.
#[derive(Copy, Clone, Debug)]
pub struct DateSelectConfig {
    /// Earliest date that can be selected.
    pub min_date: Option<CalendarDate>,
    /// Latest date that can be selected.
    pub max_date: Option<CalendarDate>,
    /// First day of the calendar's weeks.
    pub week_start: Weekday,
}

impl<'a, 'b> From<&'b DateSelect<'a>> for DateSelectConfig {
    fn from(value: &'b DateSelect<'a>) -> (r: Self) {
        DateSelectConfig { min_date: value.min_date, max_date: value.max_date, week_start: value.week_start }
    }
}

impl<'a, 'b> vstd::std_specs::convert::FromSpecImpl<&'b DateSelect<'a>> for DateSelectConfig {
    open spec fn obeys_from_spec() -> bool {
        true
    }

    open spec fn from_spec(value: &'b DateSelect<'a>) -> Self {
        DateSelectConfig { min_date: value.min_date, max_date: value.max_date, week_start: value.week_start }
    }
}

/// The running state of a [DateSelect] prompt.
pub struct DateSelectPrompt<'a> {
    message: &'a str,
    current_date: CalendarDate,
    week_start: Weekday,
    min_date: Option<CalendarDate>,
    max_date: Option<CalendarDate>,
    help_message: Option<&'a str>,
    vim_mode: bool,
    formatter: &'a dyn DateFormatter,
    validators: Vec<&'a dyn DateValidator>,
    error: Option<String>,
}

impl<'a> DateSelectPrompt<'a> {
    /// The selected date.
    pub closed spec fn spec_current(&self) -> CalendarDate { self.current_date }
    /// The earliest date that can be selected.
    pub closed spec fn spec_min(&self) -> Option<CalendarDate> { self.min_date }
    /// The latest date that can be selected.
    pub closed spec fn spec_max(&self) -> Option<CalendarDate> { self.max_date }
    /// Whether vim mode is on.
    pub closed spec fn spec_vim_mode(&self) -> bool { self.vim_mode }
    /// The message.
    pub closed spec fn spec_message(&self) -> &'a str { self.message }
    /// Whether `text` is what the prompt's formatter shows for the answer `answer`.
    pub closed spec fn spec_shows(&self, answer: CalendarDate, text: Seq<char>) -> bool {
        self.formatter.spec_formats(answer, text)
    }
    /// The help message.
    pub closed spec fn spec_help_message(&self) -> Option<&'a str> { self.help_message }
    /// The first day of the week in the calendar.
    pub closed spec fn spec_week_start(&self) -> Weekday { self.week_start }
    /// The error of the last refused submission.
    /// The validators, in the order they run.
    pub closed spec fn spec_validators(&self) -> Seq<&'a dyn DateValidator> { self.validators@ }
    pub closed spec fn spec_error(&self) -> Option<Seq<char>> {
        match self.error { Some(e) => Some(e@), None => None }
    }

    /// The state invariant: the selected date and the bounds are dates chrono has.
    pub closed spec fn wf(&self) -> bool {
        &&& spec_valid_days(self.current_date.days)
        &&& self.min_date matches Some(m) ==> spec_valid_days(m.days)
        &&& self.max_date matches Some(m) ==> spec_valid_days(m.days)
    }

    /// Starts a prompt on the starting date. Fails with `InvalidConfiguration`
    /// when a date is not one of the calendar, when the earliest date comes
    /// after the starting date, or when the latest comes before it (checked in
    /// that order).
    pub fn new(so: DateSelect<'a>) -> (r: InquireResult<Self>)
        ensures
            !spec_dates_valid(so) ==> (r matches Err(InquireError::InvalidConfiguration(m))
                && m@ == DATE_SELECT_INVALID_DATE_MESSAGE@),
            spec_dates_valid(so) && (so.min_date matches Some(lo) && lo.days > so.starting_date.days)
                ==> (r matches Err(InquireError::InvalidConfiguration(m)) && m@ == DATE_SELECT_MIN_DATE_MESSAGE@),
            spec_dates_valid(so) && !(so.min_date matches Some(lo) && lo.days > so.starting_date.days)
                && (so.max_date matches Some(hi) && hi.days < so.starting_date.days)
                ==> (r matches Err(InquireError::InvalidConfiguration(m)) && m@ == DATE_SELECT_MAX_DATE_MESSAGE@),
            r matches Ok(p) ==> {
                &&& p.wf()
                &&& p.spec_current() == so.starting_date
                &&& p.spec_min() == so.min_date
                &&& p.spec_max() == so.max_date
                &&& p.spec_vim_mode() == so.vim_mode
                &&& p.spec_error() is None
                &&& forall|d: CalendarDate, t: Seq<char>| p.spec_shows(d, t) == so.formatter.spec_formats(d, t)
                &&& p.spec_validators() == so.validators@
            },
            spec_dates_valid(so) && !(so.min_date matches Some(lo) && lo.days > so.starting_date.days)
                && !(so.max_date matches Some(hi) && hi.days < so.starting_date.days) ==> r is Ok,
    {
        let start_ok = CalendarDate::from_days(so.starting_date.days).is_some();
        let min_ok = match so.min_date {
            Some(m) => CalendarDate::from_days(m.days).is_some(),
            None => true,
        };
        let max_ok = match so.max_date {
            Some(m) => CalendarDate::from_days(m.days).is_some(),
            None => true,
        };
        if !(start_ok && min_ok && max_ok) {
            return Err(InquireError::InvalidConfiguration(to_owned_string(DATE_SELECT_INVALID_DATE_MESSAGE)));
        }
        if let Some(min_date) = so.min_date {
            if min_date.days > so.starting_date.days {
                return Err(InquireError::InvalidConfiguration(to_owned_string(DATE_SELECT_MIN_DATE_MESSAGE)));
            }
        }
        if let Some(max_date) = so.max_date {
            if max_date.days < so.starting_date.days {
                return Err(InquireError::InvalidConfiguration(to_owned_string(DATE_SELECT_MAX_DATE_MESSAGE)));
            }
        }
        let mut prompt = DateSelectPrompt {
            message: so.message,
            current_date: so.starting_date,
            week_start: so.week_start,
            min_date: so.min_date,
            max_date: so.max_date,
            help_message: so.help_message,
            vim_mode: so.vim_mode,
            formatter: so.formatter,
            validators: so.validators,
            error: None,
        };
        let mut formatter = so.formatter;
        std::mem::swap(&mut prompt.formatter, &mut formatter);
        Ok(prompt)
    }

    /// Selects `new_date`, clamped into the bounds.
    fn update_date(&mut self, new_date: CalendarDate)
        requires
            old(self).wf(),
            spec_valid_days(new_date.days),
        ensures
            final(self).wf(),
            final(self).spec_current().days == spec_clamp(new_date.days, old(self).spec_min(), old(self).spec_max()),
            final(self).spec_min() == old(self).spec_min(),
            final(self).spec_max() == old(self).spec_max(),
            final(self).spec_vim_mode() == old(self).spec_vim_mode(),
            final(self).spec_error() == old(self).spec_error(),
    {
        self.current_date = new_date;
        if let Some(min_date) = self.min_date {
            if self.current_date.days < min_date.days {
                self.current_date = min_date;
            }
        }
        if let Some(max_date) = self.max_date {
            if self.current_date.days > max_date.days {
                self.current_date = max_date;
            }
        }
    }

    /// Moves the selection by `qty` months (at most a year), keeping the day,
    /// when chrono has that date; the result is clamped into the bounds.
    fn shift_months(&mut self, qty: i32)
        requires
            old(self).wf(),
            -12 <= qty <= 12,
        ensures
            final(self).wf(),
            match spec_month_moved(old(self).spec_current().days, qty) {
                Some(d) => final(self).spec_current().days == spec_clamp(d, old(self).spec_min(), old(self).spec_max()),
                None => final(self).spec_current() == old(self).spec_current(),
            },
            final(self).spec_min() == old(self).spec_min(),
            final(self).spec_max() == old(self).spec_max(),
            final(self).spec_vim_mode() == old(self).spec_vim_mode(),
            final(self).spec_error() == old(self).spec_error(),
    {
        let date = self.current_date;
        let (year, month, _) = date_parts(date);
        let years: i32 = if qty == 12 { 1 } else if qty == -12 { -1 } else { 0 };
        let months: i32 = if qty == 12 || qty == -12 { 0 } else { qty };
        let new_year = match year.checked_add(years) {
            Some(y) => y,
            None => return,
        };
        let cur_month = (month - 1) as i32;
        let sum = cur_month + months;
        let new_month = if sum < 0 { sum + 12 } else if sum >= 12 { sum - 12 } else { sum };
        let moved = match with_month0(date, new_month as u32) {
            Some(d) => with_year(d, new_year),
            None => None,
        };
        if let Some(new_date) = moved {
            self.update_date(new_date);
        }
    }

    /// What a key other than Ctrl+C and enter does to the prompt (see
    /// [DateSelectPrompt::on_change]): a move by days or months, clamped into
    /// the bounds; other keys, and month moves to a date chrono does not have,
    /// leave the selection. The bounds and the vim mode stay.
    pub open spec fn changed_by(&self, key: TermKey, after: &Self) -> bool {
        &&& after.spec_min() == self.spec_min()
        &&& after.spec_max() == self.spec_max()
        &&& after.spec_vim_mode() == self.spec_vim_mode()
        &&& spec_day_shift(key, self.spec_vim_mode()) matches Some(n) ==> after.spec_current().days
            == spec_clamp((self.spec_current().days + n) as i32, self.spec_min(), self.spec_max())
        &&& spec_month_shift(key, self.spec_vim_mode()) matches Some(q) ==> match spec_month_moved(self.spec_current().days, q) {
            Some(d) => after.spec_current().days == spec_clamp(d, self.spec_min(), self.spec_max()),
            None => after.spec_current() == self.spec_current(),
        }
        &&& spec_day_shift(key, self.spec_vim_mode()) is None && spec_month_shift(key, self.spec_vim_mode()) is None
            ==> after.spec_current() == self.spec_current()
    }

    /// Reacts to a key: arrows (and `hjkl` in vim mode, tab for a week down)
    /// move the selection by a day or a week, `w`/`s` by a year and `a`/`d` by a
    /// month; the selection is then clamped into the bounds.
    ///
    /// Moving past the last or first date chrono has is left out: the prompt
    /// computes that date there.
    pub fn on_change(&mut self, key: TermKey)
        requires
            old(self).wf(),
            spec_day_shift(key, old(self).spec_vim_mode()) matches Some(n) ==> {
                let d = old(self).spec_current().days + n;
                i32::MIN <= d <= i32::MAX && spec_valid_days(d as i32)
            },
        ensures
            final(self).wf(),
            final(self).spec_error() == old(self).spec_error(),
            old(self).changed_by(key, &*final(self)),
    {
        let days: Option<i32> = match key {
            TermKey::Up => Some(-7),
            TermKey::Down => Some(7),
            TermKey::Left => Some(-1),
            TermKey::Right => Some(1),
            TermKey::Char('\t') => Some(7),
            TermKey::Char('k') if self.vim_mode => Some(-7),
            TermKey::Char('j') if self.vim_mode => Some(7),
            TermKey::Char('h') if self.vim_mode => Some(-1),
            TermKey::Char('l') if self.vim_mode => Some(1),
            _ => None,
        };
        match days {
            Some(n) => {
                match shift_days(self.current_date, n) {
                    Some(d) => self.update_date(d),
                    None => {},
                }
            },
            None => {
                match key {
                    TermKey::Char('w') => self.shift_months(-12),
                    TermKey::Char('s') => self.shift_months(12),
                    TermKey::Char('a') => self.shift_months(-1),
                    TermKey::Char('d') => self.shift_months(1),
                    _ => {},
                }
            },
        }
    }

    /// The selected date once every validator accepts it, or the message of the
    /// first that refuses.
    fn get_final_answer(&self) -> (r: Result<CalendarDate, String>)
        ensures
            spec_validators_give(self.spec_validators(), self.spec_current(),
                match r { Ok(_) => None, Err(m) => Some(m@) }),
            r matches Ok(d) ==> d == self.spec_current(),
    {
        let mut i: usize = 0;
        proof {
            assert(self.validators@.skip(0) =~= self.validators@);
        }
        while i < self.validators.len()
            invariant
                i <= self.validators@.len(),
                forall|o: Option<Seq<char>>| spec_validators_give(self.validators@.skip(i as int), self.current_date, o)
                    ==> spec_validators_give(self.validators@, self.current_date, o),
            decreases self.validators@.len() - i,
        {
            let ghost rest = self.validators@.skip(i as int);
            proof {
                assert(rest[0] == self.validators@[i as int]);
                assert(rest.drop_first() =~= self.validators@.skip(i + 1));
            }
            match self.validators[i].validate(self.current_date) {
                Ok(()) => {},
                Err(err) => {
                    return Err(err);
                },
            }
            i = i + 1;
        }
        proof {
            assert(self.validators@.skip(i as int).len() == 0);
        }
        Ok(self.current_date)
    }

    /// Handles one key press: Ctrl+C interrupts, enter submits the selected
    /// date (keeping the prompt open with the validator's message when refused),
    /// and any other key goes to [DateSelectPrompt::on_change].
    pub fn handle_key(&mut self, key: TermKey) -> (r: PromptStep<CalendarDate>)
        requires
            old(self).wf(),
            spec_day_shift(key, old(self).spec_vim_mode()) matches Some(n) ==> {
                let d = old(self).spec_current().days + n;
                i32::MIN <= d <= i32::MAX && spec_valid_days(d as i32)
            },
        ensures
            final(self).wf(),
            key == TermKey::Ctrl('c') ==> r is Interrupted,
            key == TermKey::Char('\n') ==> match r {
                PromptStep::Answered(d) => d == old(self).spec_current() && *final(self) == *old(self)
                    && spec_validators_give(old(self).spec_validators(), old(self).spec_current(), None),
                PromptStep::Continue => final(self).spec_error() matches Some(m)
                    && spec_validators_give(old(self).spec_validators(), old(self).spec_current(), Some(m))
                    && final(self).spec_current() == old(self).spec_current()
                    && final(self).spec_validators() == old(self).spec_validators(),
                _ => false,
            },
            !(key == TermKey::Ctrl('c') || key == TermKey::Char('\n')) ==> r is Continue
                && old(self).changed_by(key, &*final(self)),
            final(self).spec_min() == old(self).spec_min(),
            final(self).spec_max() == old(self).spec_max(),
            final(self).spec_vim_mode() == old(self).spec_vim_mode(),
    {
        match key {
            TermKey::Ctrl('c') => PromptStep::Interrupted,
            TermKey::Char('\n') => match self.get_final_answer() {
                Ok(answer) => PromptStep::Answered(answer),
                Err(err) => {
                    self.error = Some(err);
                    PromptStep::Continue
                },
            },
            _ => {
                self.on_change(key);
                PromptStep::Continue
            },
        }
    }

    /// Whether [DateSelectPrompt::handle_key] can take the key: a key that
    /// moves the selection by days must land on a date chrono has.
    pub fn key_allowed(&self, key: TermKey) -> (r: bool)
        ensures
            r == (spec_day_shift(key, self.spec_vim_mode()) matches Some(n) ==> {
                let d = self.spec_current().days + n;
                i32::MIN <= d <= i32::MAX && spec_valid_days(d as i32)
            }),
    {
        let days: Option<i32> = match key {
            TermKey::Up => Some(-7),
            TermKey::Down => Some(7),
            TermKey::Left => Some(-1),
            TermKey::Right => Some(1),
            TermKey::Char('\t') => Some(7),
            TermKey::Char('k') if self.vim_mode => Some(-7),
            TermKey::Char('j') if self.vim_mode => Some(7),
            TermKey::Char('h') if self.vim_mode => Some(-1),
            TermKey::Char('l') if self.vim_mode => Some(1),
            _ => None,
        };
        match days {
            Some(n) => shift_days(self.current_date, n).is_some(),
            None => true,
        }
    }

    /// Whether the calendar of the selected date's month is drawn whole: chrono
    /// has every day of its six weeks (or it has no first day or start week to
    /// draw weeks from).
    pub open spec fn spec_calendar_whole(&self) -> bool {
        let (year, month, _) = spec_date_parts(self.spec_current().days);
        match spec_from_ymd(year, month, 1) {
            Some(first) => match spec_calendar_start(first as int, spec_weekday_index(self.spec_week_start())) {
                Some(start) => spec_days_valid(start, 43),
                None => true,
            },
            None => true,
        }
    }

    /// The pieces that end a frame when today is `today` and help lines have
    /// the style `help_style`: the calendar's head, its six weeks when there is
    /// a start week, each day styled as [crate::ui::backend::spec_calendar_day_style]
    /// says, and the help line if any.
    pub open spec fn spec_frame_end_pieces(&self, today: CalendarDate, help_style: StyleSheet) -> Seq<Piece> {
        let (year, month, _) = spec_date_parts(self.spec_current().days);
        let head = calendar_head_pieces(month, year, self.spec_week_start());
        let weeks = match spec_from_ymd(year, month, 1) {
            Some(first) => match spec_calendar_start(first as int, spec_weekday_index(self.spec_week_start())) {
                Some(start) => calendar_weeks_pieces(start, 6, month, today, self.spec_current(), self.spec_min(), self.spec_max()),
                None => Seq::empty(),
            },
            None => Seq::empty(),
        };
        let help = match self.spec_help_message() { Some(h) => help_line_pieces(help_style, h@), None => Seq::empty() };
        head + weeks + help
    }

    /// Draws a frame when today is `today`: the error of the last refused
    /// submission if any, the prompt line, the calendar of the selected date's
    /// month (today marked in it), and the help message if any. The frame ends
    /// with the pieces of [DateSelectPrompt::spec_frame_end_pieces] when the
    /// calendar is drawn whole.
    pub fn render_at(&self, backend: &mut Backend, today: CalendarDate) -> (r: InquireResult<()>)
        requires
            self.wf(),
        ensures
            r is Ok,
            ({
                let (year, month, _) = spec_date_parts(self.spec_current().days);
                let cfg = old(backend).spec_config();
                let head = old(backend).spec_text()
                    + (match self.spec_error() { Some(e) => error_line_text(cfg, e), None => Seq::empty() })
                    + prompt_text(cfg.prompt_prefix.content@, self.spec_message()@) + newline_text()
                    + spec_calendar_head(month, year, self.spec_week_start());
                let help = match self.spec_help_message() { Some(h) => help_line_text(h@), None => Seq::empty() };
                &&& final(backend).spec_text().len() >= head.len()
                &&& final(backend).spec_text().take(head.len() as int) == head
                &&& match spec_from_ymd(year, month, 1) {
                    Some(first) => match spec_calendar_start(first as int, spec_weekday_index(self.spec_week_start())) {
                        Some(start) => spec_days_valid(start, 43) ==> final(backend).spec_text() == head + spec_weeks_text(start, 6) + help,
                        None => final(backend).spec_text() == head + help,
                    },
                    None => final(backend).spec_text() == head + help,
                }
            }),
            self.spec_calendar_whole() ==> exists|p: int| 0 <= p <= final(backend).spec_output().len()
                && #[trigger] pieces_sent(false, self.spec_frame_end_pieces(today, old(backend).spec_config().help_message),
                    final(backend).spec_output().skip(p)),
            final(backend).spec_config() == old(backend).spec_config(),
            final(backend).spec_pending_keys() == old(backend).spec_pending_keys(),
            final(backend).spec_has_keys() == old(backend).spec_has_keys(),
            final(backend).wf() == old(backend).wf(),
    {
        let ghost cfg = backend.spec_config();
        let ghost t0 = backend.spec_text();
        let _ = backend.frame_setup();
        if let Some(err) = &self.error {
            let _ = backend.render_error_message(err.as_str());
        }
        let _ = backend.render_calendar_prompt(self.message);
        let ghost t1 = backend.spec_text();
        assert(t1 =~= t0 + (match self.spec_error() { Some(e) => error_line_text(cfg, e), None => Seq::empty() })
            + prompt_text(cfg.prompt_prefix.content@, self.spec_message()@) + newline_text());
        let (year, month, _) = date_parts(self.current_date);
        let ghost b1 = *backend;
        let _ = backend.render_calendar(month, year, self.week_start, today, self.current_date, self.min_date, self.max_date);
        let ghost b2 = *backend;
        let ghost t2 = backend.spec_text();
        let ghost head = t1 + spec_calendar_head(month, year, self.week_start);
        if let Some(help) = self.help_message {
            let _ = backend.render_help_message(help);
        }
        let ghost b3 = *backend;
        proof {
            let help_ps = match self.spec_help_message() { Some(h) => help_line_pieces(cfg.help_message, h@), None => Seq::empty() };
            if self.spec_calendar_whole() {
                let cal = self.spec_frame_end_pieces(today, cfg.help_message).take(
                    self.spec_frame_end_pieces(today, cfg.help_message).len() - help_ps.len());
                if self.spec_help_message() is None {
                    assert(b3 == b2);
                    crate::ui::renderer::lemma_pieces_empty(false, Seq::empty());
                    assert(b3.sent(&b2, help_ps)) by {
                        assert(b3.spec_output().skip(b2.spec_output().len() as int) =~= Seq::<char>::empty());
                        assert(b3.spec_output().take(b2.spec_output().len() as int) =~= b2.spec_output());
                    }
                }
                assert(cal + help_ps =~= self.spec_frame_end_pieces(today, cfg.help_message));
                Backend::lemma_sent_chain(b1, b2, b3, cal, help_ps);
            }
        }
        proof {
            let help_t = match self.spec_help_message() { Some(h) => help_line_text(h@), None => Seq::empty() };
            assert(backend.spec_text() =~= t2 + help_t);
            assert(backend.spec_text().take(head.len() as int) =~= t2.take(head.len() as int));
        }
        let _ = backend.frame_finish();
        proof {
            if self.spec_calendar_whole() {
                let p = b1.spec_output().len() as int;
                assert(backend.spec_output().skip(p) == b3.spec_output().skip(p));
                assert(pieces_sent(false, self.spec_frame_end_pieces(today, cfg.help_message), backend.spec_output().skip(p)));
            }
        }
        Ok(())
    }


    /// Draws a frame as [DateSelectPrompt::render_at] does, with today's date
    /// as the clock gives it.
    pub fn render(&self, backend: &mut Backend) -> (r: InquireResult<()>)
        requires
            self.wf(),
        ensures
            r is Ok,
            ({
                let (year, month, _) = spec_date_parts(self.spec_current().days);
                let cfg = old(backend).spec_config();
                let head = old(backend).spec_text()
                    + (match self.spec_error() { Some(e) => error_line_text(cfg, e), None => Seq::empty() })
                    + prompt_text(cfg.prompt_prefix.content@, self.spec_message()@) + newline_text()
                    + spec_calendar_head(month, year, self.spec_week_start());
                let help = match self.spec_help_message() { Some(h) => help_line_text(h@), None => Seq::empty() };
                &&& final(backend).spec_text().len() >= head.len()
                &&& final(backend).spec_text().take(head.len() as int) == head
                &&& match spec_from_ymd(year, month, 1) {
                    Some(first) => match spec_calendar_start(first as int, spec_weekday_index(self.spec_week_start())) {
                        Some(start) => spec_days_valid(start, 43) ==> final(backend).spec_text() == head + spec_weeks_text(start, 6) + help,
                        None => final(backend).spec_text() == head + help,
                    },
                    None => final(backend).spec_text() == head + help,
                }
            }),
            self.spec_calendar_whole() ==> exists|today: CalendarDate, p: int| 0 <= p <= final(backend).spec_output().len()
                && #[trigger] pieces_sent(false, self.spec_frame_end_pieces(today, old(backend).spec_config().help_message),
                    final(backend).spec_output().skip(p)),
            final(backend).spec_config() == old(backend).spec_config(),
            final(backend).spec_pending_keys() == old(backend).spec_pending_keys(),
            final(backend).spec_has_keys() == old(backend).spec_has_keys(),
            final(backend).wf() == old(backend).wf(),
    {
        let day = today();
        self.render_at(backend, day)
    }

    /// The text shown for a submitted answer, as the prompt's formatter makes it.
    pub fn format_answer(&self, answer: CalendarDate) -> (r: String)
        ensures
            self.spec_shows(answer, r@),
    {
        self.formatter.format(answer)
    }
}

/// Whether a date lies within the bounds, both inclusive.
pub open spec fn spec_within_bounds(d: i32, min_date: Option<CalendarDate>, max_date: Option<CalendarDate>) -> bool {
    &&& min_date matches Some(lo) ==> lo.days <= d
    &&& max_date matches Some(hi) ==> d <= hi.days
}

/// The bounds are inclusive boundaries of the calendar: once the selection is
/// within them, no key moves it out (when the earliest date does not come
/// after the latest).
pub proof fn law_keys_keep_selection_within_bounds(p: DateSelectPrompt, key: TermKey, q: DateSelectPrompt)
    requires
        p.spec_min() is Some && p.spec_max() is Some ==> p.spec_min()->0.days <= p.spec_max()->0.days,
        spec_within_bounds(p.spec_current().days, p.spec_min(), p.spec_max()),
        p.changed_by(key, &q),
    ensures
        spec_within_bounds(q.spec_current().days, q.spec_min(), q.spec_max()),
{
    if let Some(n) = spec_day_shift(key, p.spec_vim_mode()) {
        law_clamp_within_bounds((p.spec_current().days + n) as i32, p.spec_min(), p.spec_max());
    }
    if let Some(qty) = spec_month_shift(key, p.spec_vim_mode()) {
        if let Some(d) = spec_month_moved(p.spec_current().days, qty) {
            law_clamp_within_bounds(d, p.spec_min(), p.spec_max());
        }
    }
}

} // verus!
