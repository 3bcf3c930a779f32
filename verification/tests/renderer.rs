use inquire::date::{CalendarDate, Weekday};
use inquire::prompts::input::{InputOptions, InputPrompt};
use inquire::multiselect::TermKey;
use inquire::key::{Key, KeyCode, KeyEvent, KeyModifiers};
use inquire::text_input::Input;
use inquire::ui::old_terminal::OldTerminal;
use inquire::ui::renderer::Renderer;

fn renderer() -> Renderer {
    Renderer::new(OldTerminal::new_with_io(Vec::new())).unwrap()
}

#[test]
fn help_line_is_bracketed_and_cyan() {
    let mut r = renderer();
    r.print_help("press enter").unwrap();
    let out = r.close().close();
    assert_eq!("\x1b[?25l\x1b[38;5;6m[press enter]\x1b[39m\x1b[1G\n\x1b[?25h\x1b[?25h", out);
}

#[test]
fn prompt_line_shows_default_and_bold_content() {
    let mut r = renderer();
    r.print_prompt("Name?", Some("joe"), Some("ann")).unwrap();
    r.print_prompt("Name?", None, Some("")).unwrap();
    let out = r.close().close();
    assert_eq!(
        "\x1b[?25l\x1b[38;5;2m? \x1b[39mName? (joe)\x1b[1m ann\x1b[0m\x1b[1G\n\x1b[38;5;2m? \x1b[39mName?\x1b[1G\n\x1b[?25h\x1b[?25h",
        out
    );
}

#[test]
fn options_are_marked() {
    let mut r = renderer();
    r.print_option(true, "a").unwrap();
    r.print_option(false, "b").unwrap();
    r.print_multi_option(false, true, "c").unwrap();
    let out = r.close().close();
    assert_eq!(
        "\x1b[?25l\x1b[38;5;6m> a\x1b[39m\x1b[1G\n  b\x1b[1G\n  \x1b[38;5;2m[x] \x1b[39mc\x1b[1G\n\x1b[?25h\x1b[?25h",
        out
    );
}

#[test]
fn cleanup_erases_frame_and_shows_answer() {
    let mut r = renderer();
    r.print_error_message("bad").unwrap();
    r.print_prompt_input("Q", None, &Input::new_with("ab")).unwrap();
    r.cleanup("Q", "ab").unwrap();
    let out = r.close().close();
    let erase = "\x1b[1A\x1b[1G\x1b[2K";
    let expected = format!(
        "\x1b[?25l\x1b[38;5;1m# bad\x1b[39m\x1b[1G\n\x1b[38;5;2m? \x1b[39mQ ab\x1b[38;5;0m\x1b[48;5;7m \x1b[39m\x1b[49m\x1b[1G\n{}{}\x1b[38;5;2m? \x1b[39mQ\x1b[38;5;6m ab\x1b[39m\x1b[1G\n\x1b[?25h\x1b[?25h",
        erase, erase
    );
    assert_eq!(expected, out);
}

#[test]
fn dull_terminal_draws_text_only() {
    let mut r = Renderer::new(OldTerminal::new_with_io(Vec::new()).dull()).unwrap();
    r.print_help("h").unwrap();
    let out = r.close().close();
    assert_eq!("\x1b[?25l[h]\x1b[1G\n\x1b[?25h\x1b[?25h", out);
}

#[test]
fn keys_are_read_in_order() {
    let keys = vec![
        KeyEvent { code: KeyCode::Char('a'), modifiers: KeyModifiers::none() },
        KeyEvent { code: KeyCode::Esc, modifiers: KeyModifiers::none() },
    ];
    let mut r = Renderer::new(OldTerminal::new_with_io(keys)).unwrap();
    assert_eq!(Some(Key::Char('a', KeyModifiers::none())), r.read_key().unwrap());
    assert_eq!(Some(Key::Cancel), r.read_key().unwrap());
}

#[test]
fn input_prompt_frame_shows_prompt_and_typed_text() {
    let mut prompt = InputPrompt::new(InputOptions::new("Name?").with_help_message("type it"));
    prompt.handle_key(TermKey::Char('j'));
    prompt.handle_key(TermKey::Char('o'));
    assert!(prompt.render_ready());
    let mut r = renderer();
    prompt.render(&mut r).unwrap();
    prompt.render(&mut r).unwrap();
    let out = r.close().close();
    let frame = "\x1b[38;5;2m? \x1b[39mName?\x1b[1m jo\x1b[0m\x1b[1G\n\x1b[38;5;6m[type it]\x1b[39m\x1b[1G\n";
    let erase = "\x1b[1A\x1b[1G\x1b[2K";
    assert_eq!(format!("\x1b[?25l{}{}{}{}\x1b[?25h\x1b[?25h", frame, erase, erase, frame), out);
}

#[test]
fn calendar_month_is_drawn_from_the_week_start() {
    let day = |d: u32| CalendarDate::from_ymd(2021, 8, d).unwrap();
    let mut r = Renderer::new(OldTerminal::new_with_io(Vec::new()).dull()).unwrap();
    r.print_calendar_month(8, 2021, Weekday::Sun, day(1), day(5), None, None).unwrap();
    let out = r.close().close();
    let lines: Vec<&str> = out.split("\x1b[1G\n").collect();
    assert_eq!(9, lines.len());
    assert!(lines[0].ends_with(">     august 2021     "));
    assert_eq!("> su mo tu we th fr sa", lines[1]);
    // August 2021 starts on a Sunday: the first row is the week before.
    assert_eq!("> 25 26 27 28 29 30 31", lines[2]);
    assert_eq!(">  1  2  3  4  5  6  7", lines[3]);
    assert_eq!("> 29 30 31  1  2  3  4", lines[7]);
}

#[test]
fn calendar_month_marks_selected_day_and_bounds() {
    let day = |d: u32| CalendarDate::from_ymd(2021, 8, d).unwrap();
    let mut r = Renderer::new(OldTerminal::new_with_io(Vec::new())).unwrap();
    r.print_calendar_month(8, 2021, Weekday::Mon, day(20), day(5), Some(day(3)), None).unwrap();
    let out = r.close().close();
    // the selected day is black on grey, today green, days before the earliest dark grey
    assert!(out.contains("\x1b[38;5;0m\x1b[48;5;7m 5\x1b[39m\x1b[49m"));
    assert!(out.contains("\x1b[38;5;2m20\x1b[39m"));
    assert!(out.contains("\x1b[38;5;8m 2\x1b[39m"));
}
