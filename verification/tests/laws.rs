use inquire::answer::OptionAnswer;
use inquire::date::CalendarDate;
use inquire::error::InquireError;
use inquire::input::{Input, InputAction, InputActionResult, LineDirection, Magnitude};
use inquire::key::{Key, KeyCode, KeyEvent, KeyModifiers};
use inquire::multiselect::TermKey;
use inquire::multiselect::{MultiSelect as OldMultiSelect, MultiSelectOptions};
use inquire::prompts::{Password, PasswordDisplayMode, PasswordPrompt, Text, TextPrompt};
use inquire::question::Answer;
use inquire::prompts::{skip_canceled, DateSelect, DateSelectPrompt, MultiSelect, MultiSelectPrompt, PromptStep};
use inquire::terminal::CrosstermTerminal;
use inquire::text_input::Input as LineInput;
use inquire::ui::backend::Backend;
use inquire::ui::RenderConfig;
use inquire::utils::paginate;
use inquire::validator::LengthValidator;

#[test]
fn skippable_prompt_turns_cancel_into_none() {
    assert!(matches!(skip_canceled(Ok::<u8, InquireError>(3)), Ok(Some(3))));
    assert!(matches!(skip_canceled::<u8>(Err(InquireError::OperationCanceled)), Ok(None)));
    assert!(matches!(
        skip_canceled::<u8>(Err(InquireError::OperationInterrupted)),
        Err(InquireError::OperationInterrupted)
    ));
}

fn date(y: i32, m: u32, d: u32) -> CalendarDate {
    CalendarDate::from_ymd(y, m, d).unwrap()
}

#[test]
fn date_selection_stays_within_bounds() {
    let select = DateSelect::new("When?")
        .with_default(date(2021, 8, 2))
        .with_min_date(date(2021, 8, 1))
        .with_max_date(date(2021, 8, 3));
    let mut prompt = DateSelectPrompt::new(select).unwrap();
    for _ in 0..3 {
        assert!(matches!(prompt.handle_key(TermKey::Left), PromptStep::Continue));
    }
    assert!(matches!(prompt.handle_key(TermKey::Char('\n')), PromptStep::Answered(d) if d == date(2021, 8, 1)));
    for _ in 0..5 {
        prompt.handle_key(TermKey::Down);
    }
    assert!(matches!(prompt.handle_key(TermKey::Char('\n')), PromptStep::Answered(d) if d == date(2021, 8, 3)));
}

#[test]
fn date_moves_undo_each_other() {
    let start = date(2020, 2, 28);
    let mut prompt = DateSelectPrompt::new(DateSelect::new("When?").with_default(start)).unwrap();
    prompt.handle_key(TermKey::Right);
    prompt.handle_key(TermKey::Left);
    prompt.handle_key(TermKey::Down);
    prompt.handle_key(TermKey::Up);
    assert!(matches!(prompt.handle_key(TermKey::Char('\n')), PromptStep::Answered(d) if d == start));
}

#[test]
fn page_always_shows_selection() {
    let choices: Vec<u32> = (0..10).collect();
    for index in 0..10 {
        let page = paginate(4, &choices, Some(index));
        let cursor = page.cursor.unwrap();
        assert_eq!(4, page.content.len());
        assert_eq!(index as u32, page.content[cursor]);
    }
    let page = paginate(4, &choices[..3], Some(2));
    assert_eq!(3, page.content.len());
    assert_eq!(Some(2), page.cursor);
}

#[test]
fn exact_length_is_at_most_and_at_least() {
    for len in 0..6usize {
        let text = "a".repeat(len);
        let text = text.as_str();
        let exact = LengthValidator::length(3).check(&text).unwrap() == inquire::validator::Validation::Valid;
        let at_most = LengthValidator::max_length(3).check(&text).unwrap() == inquire::validator::Validation::Valid;
        let at_least = LengthValidator::min_length(3).check(&text).unwrap() == inquire::validator::Validation::Valid;
        assert_eq!(exact, at_most && at_least);
    }
}

#[test]
fn cursor_moves_keep_text_and_undo() {
    let mut input = Input::new_with("hello").with_cursor(2);
    assert_eq!(
        InputActionResult::PositionChanged,
        input.handle(InputAction::MoveCursor(Magnitude::Char, LineDirection::Right))
    );
    input.handle(InputAction::MoveCursor(Magnitude::Char, LineDirection::Left));
    assert_eq!(2, input.cursor());
    assert_eq!("hello", input.content());

    input.handle(InputAction::MoveCursor(Magnitude::Line, LineDirection::Left));
    assert_eq!(0, input.cursor());
    input.handle(InputAction::MoveCursor(Magnitude::Line, LineDirection::Right));
    assert_eq!(5, input.cursor());
    assert_eq!("hello", input.content());

    input.handle(InputAction::Delete(Magnitude::Char, LineDirection::Left));
    assert_eq!(4, input.cursor());
    assert_eq!("hell", input.content());
    let mut input = input.with_cursor(1);
    input.handle(InputAction::Delete(Magnitude::Word, LineDirection::Right));
    assert_eq!(1, input.cursor());
    assert_eq!("h", input.content());
}

#[test]
fn arrows_undo_each_other_and_other_keys_do_nothing() {
    let mut input = LineInput::new_with("abc").with_cursor(2);
    input.handle_key(Key::Left(KeyModifiers::none()));
    input.handle_key(Key::Right(KeyModifiers::none()));
    assert_eq!(2, input.cursor());
    assert_eq!("abc", input.content());
    for key in [Key::Submit, Key::Cancel, Key::Tab, Key::Up(KeyModifiers::none())] {
        assert!(!input.handle_key(key));
        assert_eq!(2, input.cursor());
        assert_eq!("abc", input.content());
    }
}

#[test]
fn toggling_twice_restores_selection() {
    let options = ["a", "b", "c"];
    let mut prompt = MultiSelectPrompt::new(MultiSelect::new("Pick", &options)).unwrap();
    let space = Key::Char(' ', KeyModifiers::none());
    prompt.handle_key(Key::Down(KeyModifiers::none()));
    prompt.handle_key(space);
    prompt.handle_key(space);
    match prompt.handle_key(Key::Submit) {
        PromptStep::Answered(answers) => assert!(answers.is_empty()),
        _ => panic!("the selection was not submitted"),
    }

    let mut prompt = MultiSelectPrompt::new(MultiSelect::new("Pick", &options)).unwrap();
    prompt.handle_key(Key::Down(KeyModifiers::none()));
    prompt.handle_key(space);
    match prompt.handle_key(Key::Submit) {
        PromptStep::Answered(answers) => assert_eq!(vec![OptionAnswer::new(1, "b")], answers),
        _ => panic!("the selection was not submitted"),
    }
}

#[test]
fn multiselect_runs_on_held_keys() {
    let options = ["a", "b", "c"];
    let keys = vec![
        KeyEvent { code: KeyCode::Right, modifiers: KeyModifiers::none() },
        KeyEvent { code: KeyCode::Enter, modifiers: KeyModifiers::none() },
    ];
    let config = RenderConfig::default();
    let mut backend = Backend::new(CrosstermTerminal::new_with_io(keys), &config).unwrap();
    let mut prompt = MultiSelectPrompt::new(MultiSelect::new("Pick", &options)).unwrap();
    match prompt.prompt_with_backend(&mut backend) {
        PromptStep::Answered(answers) => assert_eq!(3, answers.len()),
        _ => panic!("the selection was not submitted"),
    }
    assert!(backend.output().contains("a, b, c"));
}

fn selected(answer: Answer) -> Vec<OptionAnswer> {
    match answer {
        Answer::MultipleOptions(options) => options,
        _ => panic!("not a multiple-options answer"),
    }
}

#[test]
fn old_multiselect_space_twice_restores_selection() {
    let options = ["a", "b", "c"];
    let mso = MultiSelectOptions::new("Pick", &options).unwrap().with_keep_filter(true);
    let mut question = OldMultiSelect::from_options(mso);
    let before = selected(question.get_final_answer());
    assert!(before.is_empty());
    question.on_change(TermKey::Down);
    question.on_change(TermKey::Char(' '));
    assert_eq!(vec![OptionAnswer::new(1, "b")], selected(question.get_final_answer()));
    question.on_change(TermKey::Char(' '));
    assert_eq!(before, selected(question.get_final_answer()));
}

struct Echo;

impl inquire::type_aliases::Suggester for Echo {
    fn suggest(&self, input: &str) -> Vec<String> {
        vec![format!("{input}!"), format!("{input}?")]
    }
}

#[test]
fn suggestion_down_then_up_restores_typed_text() {
    let echo = Echo;
    let mut prompt = TextPrompt::new(Text::new("Say").with_suggester(&echo));
    prompt.handle_key(Key::Char('h', KeyModifiers::none()));
    prompt.handle_key(Key::Char('i', KeyModifiers::none()));
    prompt.handle_key(Key::Down(KeyModifiers::none()));
    prompt.handle_key(Key::Up(KeyModifiers::none()));
    match prompt.handle_key(Key::Submit) {
        PromptStep::Answered(answer) => assert_eq!("hi", answer),
        _ => panic!("the text was not submitted"),
    }
    let mut prompt = TextPrompt::new(Text::new("Say").with_suggester(&echo));
    prompt.handle_key(Key::Char('h', KeyModifiers::none()));
    prompt.handle_key(Key::Char('i', KeyModifiers::none()));
    prompt.handle_key(Key::Down(KeyModifiers::none()));
    match prompt.handle_key(Key::Submit) {
        PromptStep::Answered(answer) => assert_eq!("hi!", answer),
        _ => panic!("the suggestion was not submitted"),
    }
}

fn password_frame(prompt: &PasswordPrompt<'_>) -> String {
    let config = RenderConfig::default();
    let mut backend = Backend::new(CrosstermTerminal::new_with_io(Vec::new()), &config).unwrap();
    prompt.render(&mut backend).unwrap();
    backend.output().to_string()
}

#[test]
fn password_display_toggled_twice_comes_back() {
    let mut prompt = PasswordPrompt::new(
        Password::new("Secret").with_display_mode(PasswordDisplayMode::Masked).with_display_toggle_enabled(),
    );
    prompt.on_change(Key::Char('x', KeyModifiers::none()));
    prompt.on_change(Key::Char('y', KeyModifiers::none()));
    let masked = password_frame(&prompt);
    assert!(!masked.contains("xy"));
    prompt.on_change(Key::Char('r', KeyModifiers::control()));
    assert!(password_frame(&prompt).contains("xy"));
    prompt.on_change(Key::Char('r', KeyModifiers::control()));
    assert_eq!(masked, password_frame(&prompt));
}

#[test]
fn line_keys_report_exactly_the_changes() {
    let mut input = LineInput::new_with("ab").with_cursor(0);
    assert!(!input.handle_key(Key::Home));
    assert!(!input.handle_key(Key::Left(KeyModifiers::none())));
    assert!(!input.handle_key(Key::Backspace));
    assert_eq!(("ab", 0), (input.content(), input.cursor()));
    assert!(input.handle_key(Key::End));
    assert_eq!(1, input.cursor());
    assert!(input.handle_key(Key::Right(KeyModifiers::none())));
    assert_eq!(2, input.cursor());
    assert!(!input.handle_key(Key::End));
    assert!(!input.handle_key(Key::Right(KeyModifiers::none())));
    assert!(!input.handle_key(Key::Delete(KeyModifiers::none())));
    assert!(input.handle_key(Key::Left(KeyModifiers::control())));
    assert_eq!(0, input.cursor());
    assert!(input.handle_key(Key::Char('c', KeyModifiers::none())));
    assert_eq!("cab", input.content());
}
