use inquire::error::{InquireError, InquireResult};
use inquire::formatter::CustomTypeFormatter;
use inquire::key::{KeyCode, KeyEvent, KeyModifiers};
use inquire::prompts::custom_type::CustomTypePrompt;
use inquire::prompts::{step_result, Confirm, PromptStep};
use inquire::terminal::CrosstermTerminal;
use inquire::ui::backend::Backend;
use inquire::ui::RenderConfig;

fn press(code: KeyCode) -> KeyEvent {
    KeyEvent { code, modifiers: KeyModifiers::none() }
}

/// The text of a frame without its escape sequences.
fn strip_escapes(frame: &str) -> String {
    let mut text = String::new();
    let mut chars = frame.chars();
    while let Some(c) = chars.next() {
        if c == '\x1b' {
            chars.next();
            for d in chars.by_ref() {
                if d.is_ascii_alphabetic() {
                    break;
                }
            }
        } else {
            text.push(c);
        }
    }
    text
}

/// Runs the prompt on the given keys; gives its result (if it ended) and the
/// frames drawn, split where a frame erases the previous one.
fn run(confirm: Confirm<'_>, keys: Vec<KeyEvent>) -> (Option<InquireResult<bool>>, Vec<String>) {
    let config = RenderConfig::default();
    let terminal = CrosstermTerminal::new_with_io(keys);
    let mut backend = Backend::new(terminal, &config).unwrap();
    let mut prompt = CustomTypePrompt::new(confirm.into_custom_type());
    let step = prompt.prompt_with_backend(&mut backend);
    let output = backend.take_output();
    let frames = output
        .split("\x1b[1A\x1b[1G\x1b[2K")
        .filter(|f| !f.is_empty())
        .map(strip_escapes)
        .collect();
    (step_result(step), frames)
}

#[test]
fn prompt_can_be_initialized_from_str() -> InquireResult<()> {
    let (result, _) = run(Confirm::from("Question").with_default(true), vec![press(KeyCode::Enter)]);
    let result = result.unwrap()?;
    assert!(result, "Answer was not the expected one");

    Ok(())
}

#[test]
fn default_help_message_does_not_exist_and_is_not_rendered() -> InquireResult<()> {
    let (result, frames) = run(Confirm::new("Question").with_default(true), vec![press(KeyCode::Enter)]);
    result.unwrap()?;

    for (idx, frame) in frames.iter().enumerate() {
        assert!(
            !frame.contains(']'),
            "Frame {} contained a help message token when it should not have",
            idx
        );
    }

    Ok(())
}

#[test]
fn custom_help_message_is_rendered() -> InquireResult<()> {
    let (result, frames) = run(
        Confirm::new("Question").with_help_message("Custom help message").with_default(true),
        vec![press(KeyCode::Enter)],
    );
    result.unwrap()?;

    for (idx, frame) in frames.iter().enumerate() {
        let is_last_frame = idx == frames.len() - 1;

        if is_last_frame {
            assert!(
                !frame.contains("Custom help message"),
                "Frame {} (last) contained a help message token when it should not have",
                idx
            );
        } else {
            assert!(
                frame.contains("[Custom help message]"),
                "Frame {} did not contain a help message token",
                idx
            );
        }
    }

    Ok(())
}

struct Wow;

impl CustomTypeFormatter<bool> for Wow {
    fn format(&self, val: &bool) -> String {
        format!("WOW! {}", val)
    }
}

#[test]
fn custom_formatter_affects_final_output() -> InquireResult<()> {
    let custom_formatter = Wow;
    let (result, frames) = run(
        Confirm::new("Question").with_default(true).with_formatter(&custom_formatter),
        vec![press(KeyCode::Enter)],
    );
    let result = result.unwrap()?;

    assert!(result, "Answer selected (default) was not the expected true as default");

    let final_frame = frames.last().unwrap();
    assert!(
        final_frame.contains("Question") && final_frame.contains("WOW! true"),
        "Final frame did not contain the correct answer token"
    );

    Ok(())
}

#[test]
fn default_formatter_outputs_true_answer_as_yes() -> InquireResult<()> {
    let (result, frames) = run(Confirm::new("Question").with_default(true), vec![press(KeyCode::Enter)]);
    let result = result.unwrap()?;

    assert!(result, "Answer selected (default) was not the expected true as default");

    let final_frame = frames.last().unwrap();
    assert!(
        final_frame.contains("Question") && final_frame.contains("Yes"),
        "Final frame did not contain the correct answer token"
    );

    Ok(())
}

#[test]
fn default_formatter_outputs_true_answer_as_no() -> InquireResult<()> {
    let (result, frames) = run(Confirm::new("Question").with_default(false), vec![press(KeyCode::Enter)]);
    let result = result.unwrap()?;

    assert!(!result, "Answer selected (default) was not the expected false as default");

    let final_frame = frames.last().unwrap();
    assert!(
        final_frame.contains("Question") && final_frame.contains("No"),
        "Final frame did not contain the correct answer token"
    );

    Ok(())
}

#[test]
fn escape_raises_error() -> InquireResult<()> {
    let (result, frames) = run(Confirm::new("Question"), vec![press(KeyCode::Esc)]);
    let result = result.unwrap();

    assert!(result.is_err(), "Result was not an error");
    assert!(
        matches!(result.unwrap_err(), InquireError::OperationCanceled),
        "Error message was not the expected one"
    );

    let final_frame = frames.last().unwrap();
    assert!(
        final_frame.contains("Question"),
        "Final frame did not contain the correct canceled prompt token"
    );

    Ok(())
}

#[test]
fn ctrl_c_interrupts_prompt() -> InquireResult<()> {
    let ctrl_c = KeyEvent { code: KeyCode::Char('c'), modifiers: KeyModifiers::control() };
    let (result, frames) = run(Confirm::new("Question"), vec![ctrl_c]);
    let result = result.unwrap();

    assert!(result.is_err(), "Result was not an error");
    assert!(
        matches!(result.unwrap_err(), InquireError::OperationInterrupted),
        "Error message was not the expected one"
    );

    assert_eq!(1, frames.len(), "Only an initial frame should have been rendered");

    let final_frame = frames.last().unwrap();
    assert!(final_frame.contains("Question"), "Final frame did not contain the expected prompt token");

    Ok(())
}

#[test]
fn invalid_answer_shows_error_and_keeps_prompt_open() {
    let keys = vec![press(KeyCode::Char('c')), press(KeyCode::Enter), press(KeyCode::Esc)];
    let (result, frames) = run(Confirm::new("Question"), keys);
    assert!(matches!(result, Some(Err(InquireError::OperationCanceled))));
    assert!(frames[2].contains(inquire::prompts::confirm::CONFIRM_DEFAULT_ERROR_MESSAGE));
}

#[test]
fn typed_answers_are_parsed() {
    for (text, expected) in [("yes", true), ("Y", true), ("no", false), ("N", false)] {
        let mut keys: Vec<KeyEvent> = text.chars().map(|c| press(KeyCode::Char(c))).collect();
        keys.push(press(KeyCode::Enter));
        let (result, _) = run(Confirm::new("Question").with_default(!expected), keys);
        assert_eq!(expected, result.unwrap().unwrap());
    }
}

#[test]
fn keys_running_out_leave_the_prompt_open() {
    let (result, frames) = run(Confirm::new("Question"), vec![press(KeyCode::Char('y'))]);
    assert!(result.is_none());
    assert_eq!(2, frames.len());
    let mut prompt = CustomTypePrompt::new(Confirm::new("Question").into_custom_type());
    assert!(matches!(prompt.handle_key(inquire::key::Key::Submit), PromptStep::Continue));
}

fn typed(text: &str) -> Vec<KeyEvent> {
    text.chars().map(|c| press(KeyCode::Char(c))).collect()
}

fn run_custom(custom: inquire::prompts::CustomType<'_, bool>, keys: Vec<KeyEvent>) -> Option<InquireResult<bool>> {
    let config = RenderConfig::default();
    let terminal = CrosstermTerminal::new_with_io(keys);
    let mut backend = Backend::new(terminal, &config).unwrap();
    let mut prompt = CustomTypePrompt::new(custom);
    step_result(prompt.prompt_with_backend(&mut backend))
}

#[test]
fn prompt_without_default_correctly_parses_input() {
    for (input, expected) in [("yes", true), ("y", true), ("YES", true), ("Y", true), ("no", false), ("n", false), ("NO", false), ("N", false)] {
        let mut keys = typed(input);
        keys.push(press(KeyCode::Enter));
        let (result, _) = run(Confirm::from("Question").with_default(true), keys);
        assert_eq!(expected, result.unwrap().unwrap(), "Answer was not the expected one");
    }
}

#[test]
fn escape_after_successful_submit_has_no_effect() {
    let mut keys = typed("yes");
    keys.push(press(KeyCode::Enter));
    keys.push(press(KeyCode::Esc));
    let (result, _) = run(Confirm::from("Question").with_default(true), keys);
    assert!(result.unwrap().unwrap(), "Answer was not the expected one");
}

#[test]
fn invalid_inputs_are_properly_rejected() {
    for input in ["yeah", "si", "1", "nah", "nn", "0"] {
        let mut keys = typed(input);
        keys.push(press(KeyCode::Enter));
        keys.push(press(KeyCode::Esc));
        let (result, _) = run(Confirm::from("Question").with_default(true), keys);
        assert!(matches!(result, Some(Err(InquireError::OperationCanceled))), "Error was not the expected one");
    }
}

#[test]
fn prompt_with_default_can_be_readily_submitted() {
    for default_value in [true, false] {
        let (result, _) = run(Confirm::from("Question").with_default(default_value), vec![press(KeyCode::Enter)]);
        assert_eq!(default_value, result.unwrap().unwrap(), "Answer was not the expected one");
    }
}

#[test]
fn prompt_with_valid_starting_input_can_be_readily_submitted() {
    for (input, expected) in [("yes", true), ("no", false)] {
        let custom = Confirm::from("Question").into_custom_type().with_starting_input(input);
        let result = run_custom(custom, vec![press(KeyCode::Enter)]);
        assert_eq!(expected, result.unwrap().unwrap(), "Answer was not the expected one");
    }
}

struct Spanish;

impl inquire::parser::CustomTypeParser<bool> for Spanish {
    fn parse(&self, input: &str) -> Result<bool, ()> {
        match input.to_lowercase().as_str() {
            "si" => Ok(true),
            "no" => Ok(false),
            _ => Err(()),
        }
    }
}

#[test]
fn custom_parser_for_spanish_works_as_expected() {
    let spanish = Spanish;
    for (input, expected) in [("si", Some(true)), ("no", Some(false)), ("yes", None), ("nah", None)] {
        let mut keys = typed(input);
        keys.push(press(KeyCode::Enter));
        keys.push(press(KeyCode::Esc));
        let (result, _) = run(Confirm::new("Question").with_parser(&spanish), keys);
        match (expected, result.unwrap()) {
            (Some(expected), Ok(result)) => assert_eq!(expected, result, "Answer was not the expected one"),
            (None, Err(err)) => assert!(matches!(err, InquireError::OperationCanceled)),
            (Some(expected), Err(_)) => panic!("Result was not successful {} expected", expected),
            (None, Ok(result)) => panic!("Result was {} when a canceled prompt was expected", result),
        }
    }
}

#[test]
fn default_error_message_is_rendered_on_invalid_input() {
    let keys = vec![press(KeyCode::Char('c')), press(KeyCode::Enter), press(KeyCode::Esc)];
    let (result, frames) = run(Confirm::new("Question"), keys);
    assert!(matches!(result, Some(Err(InquireError::OperationCanceled))));
    for frame in frames.iter().take(2) {
        assert!(!frame.contains(inquire::prompts::confirm::CONFIRM_DEFAULT_ERROR_MESSAGE));
    }
    assert!(frames[2].contains(inquire::prompts::confirm::CONFIRM_DEFAULT_ERROR_MESSAGE));
}

#[test]
fn custom_error_message_is_rendered_on_invalid_input() {
    let keys = vec![press(KeyCode::Char('c')), press(KeyCode::Enter), press(KeyCode::Esc)];
    let mut confirm = Confirm::new("Question");
    confirm.error_message = "INCORRECT!!!!".to_string();
    let (result, frames) = run(confirm, keys);
    assert!(matches!(result, Some(Err(InquireError::OperationCanceled))));
    for frame in frames.iter().take(2) {
        assert!(!frame.contains("INCORRECT!!!!"));
    }
    assert!(frames[2].contains("INCORRECT!!!!"));
}

#[test]
fn default_formatter_for_default_values_follows_convention() {
    for (default_value, expected) in [(true, "Y/n"), (false, "y/N")] {
        let (result, frames) = run(Confirm::new("Question").with_default(default_value), vec![press(KeyCode::Enter)]);
        result.unwrap().unwrap();
        let last = frames.len() - 1;
        for (idx, frame) in frames.iter().enumerate() {
            if idx == last {
                assert!(!frame.contains(expected), "Frame {} (last) contained the default value", idx);
            } else {
                assert!(frame.contains(&format!("({})", expected)), "Frame {} did not contain the default value", idx);
            }
        }
    }
}

struct ShortBool;

impl CustomTypeFormatter<bool> for ShortBool {
    fn format(&self, val: &bool) -> String {
        if *val { "y".to_string() } else { "n".to_string() }
    }
}

#[test]
fn custom_formatter_for_default_values_is_used() {
    let short = ShortBool;
    for (default_value, expected) in [(true, "(y)"), (false, "(n)")] {
        let (result, frames) = run(
            Confirm::new("Question").with_default(default_value).with_default_value_formatter(&short),
            vec![press(KeyCode::Enter)],
        );
        result.unwrap().unwrap();
        let last = frames.len() - 1;
        for (idx, frame) in frames.iter().enumerate() {
            if idx == last {
                assert!(!frame.contains(expected), "Frame {} (last) contained the default value", idx);
            } else {
                assert!(frame.contains(expected), "Frame {} did not contain the default value", idx);
            }
        }
    }
}
