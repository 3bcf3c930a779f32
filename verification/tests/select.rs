use inquire::key::{Key, KeyCode, KeyEvent, KeyModifiers};
use inquire::list_option::ListOption;
use inquire::prompts::{PromptStep, Select, SelectPrompt};
use inquire::type_aliases::{DefaultFilter, Filter};

fn event(code: KeyCode) -> Key {
    Key::from_event(KeyEvent { code, modifiers: KeyModifiers::none() })
}

/// Feeds the keys to the prompt until it is answered.
fn run<T: std::fmt::Display>(select: Select<'_, T>, keys: &[KeyCode]) -> ListOption<T> {
    let mut prompt = SelectPrompt::new(select).unwrap();
    for code in keys {
        match prompt.handle_key(event(*code)) {
            PromptStep::Answered(answer) => return answer,
            PromptStep::Continue => {}
            _ => panic!("prompt ended without an answer"),
        }
    }
    panic!("Custom stream of characters has ended");
}

#[test]
fn enter_arrow_on_empty_list_does_not_panic() {
    let read = [
        KeyCode::Char('9'),
        KeyCode::Enter,
        KeyCode::Backspace,
        KeyCode::Char('3'),
        KeyCode::Enter,
    ];

    let options = vec![1, 2, 3];

    let ans = run(Select::new("Question", options), &read);

    assert_eq!(ListOption::new(2, 3), ans);
}

#[test]
fn down_arrow_on_empty_list_does_not_panic() {
    let read = [
        KeyCode::Char('9'),
        KeyCode::Down,
        KeyCode::Backspace,
        KeyCode::Char('3'),
        KeyCode::Down,
        KeyCode::Backspace,
        KeyCode::Enter,
    ];

    let options = vec![1, 2, 3];

    let ans = run(Select::new("Question", options), &read);

    assert_eq!(ListOption::new(0, 1), ans);
}

struct Thanks;

impl inquire::formatter::OptionFormatter<i32> for Thanks {
    fn format(&self, _option: ListOption<&i32>) -> String {
        String::from("Thanks!")
    }
}

#[test]
fn closure_formatter() {
    let read = [KeyCode::Down, KeyCode::Enter];
    let options = vec![1, 2, 3];
    let formatter = Thanks;

    let mut prompt = SelectPrompt::new(Select::new("Question", options).with_formatter(&formatter)).unwrap();
    let mut answer = None;
    for code in read {
        if let PromptStep::Answered(a) = prompt.handle_key(event(code)) {
            answer = Some(a);
        }
    }
    let ans = answer.unwrap();
    assert_eq!("Thanks!", prompt.format_answer(&ans));
    assert_eq!(ListOption::new(1, 2), ans);
}

#[test]
fn empty_options_are_refused() {
    let options: Vec<i32> = vec![];
    assert!(matches!(
        SelectPrompt::new(Select::new("Question", options)),
        Err(inquire::error::InquireError::InvalidConfiguration(_))
    ));
    assert!(matches!(
        SelectPrompt::new(Select::new("Question", vec![1]).with_starting_cursor(1)),
        Err(inquire::error::InquireError::InvalidConfiguration(_))
    ));
}

#[test]
fn navigation_wraps_and_escape_cancels() {
    let mut prompt = SelectPrompt::new(Select::new("Question", vec!["a", "b", "c"])).unwrap();
    assert_eq!(PromptStep::Continue, prompt.handle_key(event(KeyCode::Up)));
    match prompt.handle_key(event(KeyCode::Enter)) {
        PromptStep::Answered(a) => assert_eq!(ListOption::new(2, "c"), a),
        _ => panic!("expected an answer"),
    }
    let mut prompt = SelectPrompt::new(Select::new("Question", vec!["a", "b"])).unwrap();
    assert_eq!(PromptStep::Canceled, prompt.handle_key(event(KeyCode::Esc)));
}

#[test]
fn default_filter_is_case_insensitive_substring() {
    let filter = DefaultFilter;
    assert_eq!(false, Filter::<&str>::filter(&filter, "sa", &"New York", "New York", 0));
    assert_eq!(true, Filter::<&str>::filter(&filter, "sa", &"Sacramento", "Sacramento", 1));
    assert_eq!(true, Filter::<&str>::filter(&filter, "sa", &"Kansas", "Kansas", 2));
    assert_eq!(true, Filter::<&str>::filter(&filter, "sa", &"San Jose", "San Jose", 12));
    assert_eq!(false, Filter::<&str>::filter(&filter, "sa", &"Austin", "Austin", 10));
}
