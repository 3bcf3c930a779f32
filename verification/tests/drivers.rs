use inquire::key::{KeyCode, KeyEvent, KeyModifiers};
use inquire::prompts::{Password, PasswordPrompt, PromptStep, Select, SelectPrompt, Text, TextPrompt};
use inquire::terminal::CrosstermTerminal;
use inquire::ui::backend::Backend;
use inquire::ui::RenderConfig;

fn keys(codes: &[KeyCode]) -> Vec<KeyEvent> {
    codes.iter().map(|c| KeyEvent { code: *c, modifiers: KeyModifiers::none() }).collect()
}

#[test]
fn text_prompt_answers_with_typed_text() {
    let config = RenderConfig::default();
    let mut backend = Backend::new(CrosstermTerminal::new_with_io(keys(&[KeyCode::Char('h'), KeyCode::Char('i'), KeyCode::Enter])), &config).unwrap();
    let mut prompt = TextPrompt::new(Text::new("Name?"));
    assert_eq!(PromptStep::Answered(String::from("hi")), prompt.prompt_with_backend(&mut backend));
    assert!(backend.output().contains("Name? hi"));
}

#[test]
fn text_prompt_empty_answer_gives_default() {
    let config = RenderConfig::default();
    let mut backend = Backend::new(CrosstermTerminal::new_with_io(keys(&[KeyCode::Enter])), &config).unwrap();
    let mut prompt = TextPrompt::new(Text::new("Name?").with_default("joe"));
    assert_eq!(PromptStep::Answered(String::from("joe")), prompt.prompt_with_backend(&mut backend));
}

#[test]
fn password_prompt_hides_the_answer() {
    let config = RenderConfig::default();
    let mut backend = Backend::new(CrosstermTerminal::new_with_io(keys(&[KeyCode::Char('s'), KeyCode::Enter])), &config).unwrap();
    let mut prompt = PasswordPrompt::new(Password::new("Secret?").without_confirmation());
    assert_eq!(PromptStep::Answered(String::from("s")), prompt.prompt_with_backend(&mut backend));
    assert!(!backend.output().contains("Secret? s"));
}

#[test]
fn select_prompt_runs_on_held_keys_and_stops_when_they_run_out() {
    let config = RenderConfig::default();
    let mut backend = Backend::new(CrosstermTerminal::new_with_io(keys(&[KeyCode::Down])), &config).unwrap();
    let mut prompt = SelectPrompt::new(Select::new("Pick", vec!["a", "b", "c"])).unwrap();
    assert_eq!(PromptStep::Continue, prompt.prompt_with_backend(&mut backend));
    match prompt.handle_key(inquire::key::Key::Submit) {
        PromptStep::Answered(answer) => assert_eq!(1, answer.index),
        _ => panic!("the option was not submitted"),
    }
}
