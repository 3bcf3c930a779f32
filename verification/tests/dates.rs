use inquire::error::InquireError;
use inquire::date::Weekday;
use inquire::prompts::DateSelectConfig;
use inquire::date::{centered, CalendarDate};
use inquire::multiselect::TermKey;
use inquire::prompts::{DateSelect, DateSelectPrompt, PromptStep};
use inquire::prompts::date_select::{DateFormatter, DateValidator, LongDateFormatter};
use inquire::terminal::CrosstermTerminal;
use inquire::ui::backend::{calendar_header, Backend};
use inquire::ui::RenderConfig;

fn date(y: i32, m: u32, d: u32) -> CalendarDate {
    CalendarDate::from_ymd(y, m, d).unwrap()
}

fn answer(prompt: &mut DateSelectPrompt<'_>) -> CalendarDate {
    match prompt.handle_key(TermKey::Char('\n')) {
        PromptStep::Answered(d) => d,
        _ => panic!("the date was not submitted"),
    }
}

#[test]
fn default_formatter_writes_long_dates() {
    let prompt = DateSelectPrompt::new(DateSelect::new("When?").with_default(date(2021, 8, 5))).unwrap();
    assert_eq!("August 5, 2021", prompt.format_answer(date(2021, 8, 5)));
}

#[test]
fn month_and_year_moves() {
    let mut prompt = DateSelectPrompt::new(DateSelect::new("When?").with_default(date(2021, 8, 31))).unwrap();
    prompt.handle_key(TermKey::Char('d'));
    assert_eq!(date(2021, 8, 31), answer(&mut prompt));
    let mut prompt = DateSelectPrompt::new(DateSelect::new("When?").with_default(date(2021, 8, 30))).unwrap();
    prompt.handle_key(TermKey::Char('d'));
    assert_eq!(date(2021, 9, 30), answer(&mut prompt));
    prompt.handle_key(TermKey::Char('s'));
    assert_eq!(date(2022, 9, 30), answer(&mut prompt));
    prompt.handle_key(TermKey::Char('a'));
    prompt.handle_key(TermKey::Char('w'));
    assert_eq!(date(2021, 8, 30), answer(&mut prompt));
}

#[test]
fn days_from_ce_are_checked() {
    assert_eq!(Some(date(1, 1, 1)), CalendarDate::from_days(1));
    assert_eq!(None, CalendarDate::from_days(i32::MAX));
    assert_eq!(None, CalendarDate::from_ymd(2021, 2, 29));
}

#[test]
fn calendar_header_names_month_and_year() {
    assert_eq!("    august 2021     ", calendar_header(8, 2021));
    assert_eq!("  ab  ", centered("ab", 6));
}

#[test]
fn calendar_is_drawn_for_selected_month() {
    let config = RenderConfig::default();
    let mut backend = Backend::new(CrosstermTerminal::new_with_io(Vec::new()), &config).unwrap();
    let prompt = DateSelectPrompt::new(DateSelect::new("When?").with_default(date(2021, 8, 5))).unwrap();
    prompt.render(&mut backend).unwrap();
    let out = backend.output().to_string();
    assert!(out.contains("august 2021"));
    assert!(out.contains("su mo tu we th fr sa"));
    assert!(out.contains("31"));
}

#[test]
fn config_takes_bounds_and_week_start() {
    let mut ds = DateSelect::new("When?");
    ds.min_date = Some(date(2021, 1, 1));
    ds.week_start = Weekday::Mon;
    let config = DateSelectConfig::from(&ds);
    assert_eq!(Some(date(2021, 1, 1)), config.min_date);
    assert_eq!(None, config.max_date);
    assert_eq!(Weekday::Mon, config.week_start);
}

#[test]
fn bounds_around_the_start_are_required() {
    let late_min = DateSelect::new("When?").with_default(date(2021, 8, 5)).with_min_date(date(2021, 8, 6));
    assert!(matches!(DateSelectPrompt::new(late_min), Err(InquireError::InvalidConfiguration(m))
        if m == "Min date can not be greater than starting date"));
    let early_max = DateSelect::new("When?").with_default(date(2021, 8, 5)).with_max_date(date(2021, 8, 4));
    assert!(matches!(DateSelectPrompt::new(early_max), Err(InquireError::InvalidConfiguration(m))
        if m == "Max date can not be smaller than starting date"));
    let mut bad = DateSelect::new("When?");
    bad.starting_date = CalendarDate { days: i32::MAX };
    assert!(matches!(DateSelectPrompt::new(bad), Err(InquireError::InvalidConfiguration(_))));
}

#[test]
fn calendar_range_and_weekdays() {
    assert!(CalendarDate::from_days(-95746129).is_some());
    assert!(CalendarDate::from_days(-95746130).is_none());
    assert!(CalendarDate::from_days(95745399).is_some());
    assert!(CalendarDate::from_days(95745400).is_none());
    assert_eq!(1, date(1, 1, 1).days);
    // August 1, 2021 was a Sunday: six days after a Monday.
    assert_eq!(6, (date(2021, 8, 1).days - 1).rem_euclid(7));
}

struct NotOn(CalendarDate);

impl DateValidator for NotOn {
    fn validate(&self, date: CalendarDate) -> Result<(), String> {
        if date == self.0 {
            Err("That day is taken".to_string())
        } else {
            Ok(())
        }
    }
}

#[test]
fn refused_date_keeps_the_prompt_open_with_the_message() {
    let taken = NotOn(date(2021, 8, 5));
    let mut prompt =
        DateSelectPrompt::new(DateSelect::new("When?").with_default(date(2021, 8, 5)).with_validator(&taken)).unwrap();
    assert!(matches!(prompt.handle_key(TermKey::Char('\n')), PromptStep::Continue));
    let config = RenderConfig::default();
    let mut backend = Backend::new(CrosstermTerminal::new_with_io(Vec::new()), &config).unwrap();
    prompt.render_at(&mut backend, date(2021, 8, 10)).unwrap();
    assert!(backend.output().contains("That day is taken"));
    prompt.handle_key(TermKey::Right);
    assert_eq!(date(2021, 8, 6), answer(&mut prompt));
}

#[test]
fn calendar_days_are_styled() {
    let config = RenderConfig::default();
    let mut backend = Backend::new(CrosstermTerminal::new_with_io(Vec::new()), &config).unwrap();
    let prompt = DateSelectPrompt::new(
        DateSelect::new("When?").with_default(date(2021, 8, 5)).with_min_date(date(2021, 8, 3)),
    )
    .unwrap();
    prompt.render_at(&mut backend, date(2021, 8, 10)).unwrap();
    let out = backend.output().to_string();
    // The selected day: black on grey.
    assert!(out.contains("\x1B[38;5;0m\x1B[48;5;7m 5\x1B[39m\x1B[49m"));
    // Today: light green.
    assert!(out.contains("\x1B[38;5;10m10\x1B[39m"));
    // Before the earliest date, and in the month before: dark grey.
    assert!(out.contains("\x1B[38;5;8m 2\x1B[39m"));
    assert!(out.contains("\x1B[38;5;8m25\x1B[39m"));
    // Any other day of the month: plain.
    assert!(out.contains(" 11 "));
    // Each line starts with a light green "> ".
    assert!(out.contains("\x1B[38;5;10m> \x1B[39m"));
}

#[test]
fn long_dates_pad_and_sign_the_year() {
    let f = LongDateFormatter;
    assert_eq!("January 1, 0001", f.format(date(1, 1, 1)));
    assert_eq!("March 9, 0999", f.format(date(999, 3, 9)));
    assert_eq!("January 2, +12345", f.format(date(12345, 1, 2)));
    assert_eq!("December 31, -0005", f.format(date(-5, 12, 31)));
}
