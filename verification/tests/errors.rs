use inquire::error::{CustomUserError, InquireError};
use inquire::multiselect::MultiSelectOptions;
use inquire::prompts::{step_result, MultiSelect, MultiSelectPrompt, PromptStep, Select, SelectPrompt};

#[test]
fn empty_option_lists_are_invalid_configurations() {
    let none: Vec<u8> = Vec::new();
    assert!(matches!(SelectPrompt::new(Select::new("Q", none)), Err(InquireError::InvalidConfiguration(_))));
    let empty: [&str; 0] = [];
    assert!(matches!(MultiSelectPrompt::new(MultiSelect::new("Q", &empty)), Err(InquireError::InvalidConfiguration(_))));
    assert!(MultiSelectOptions::new("Q", &empty).is_err());
}

#[test]
fn out_of_range_cursor_and_defaults_are_invalid() {
    assert!(matches!(
        SelectPrompt::new(Select::new("Q", vec![1, 2]).with_starting_cursor(2)),
        Err(InquireError::InvalidConfiguration(_))
    ));
    let options = ["a"];
    let defaults = [3usize];
    assert!(matches!(
        MultiSelectPrompt::new(MultiSelect::new("Q", &options).with_default(&defaults)),
        Err(InquireError::InvalidConfiguration(_))
    ));
}

#[test]
fn raw_mode_errors_tell_missing_tty_apart() {
    let e = std::io::Error::from_raw_os_error(25);
    assert!(matches!(InquireError::from_io_code(Some(25), e), InquireError::NotTTY));
    let e = std::io::Error::from_raw_os_error(6);
    assert!(matches!(InquireError::from_io_code(Some(6), e), InquireError::NotTTY));
    let e = std::io::Error::from_raw_os_error(5);
    assert!(matches!(InquireError::from_io_code(Some(5), e), InquireError::IO(_)));
    let e = std::io::Error::from_raw_os_error(25);
    assert!(matches!(InquireError::from_io(e), InquireError::NotTTY));
    let e = std::io::Error::new(std::io::ErrorKind::Other, "broken");
    assert!(matches!(InquireError::from_io(e), InquireError::IO(_)));
}

#[test]
fn steps_give_results() {
    assert!(step_result::<u8>(PromptStep::Continue).is_none());
    assert!(matches!(step_result(PromptStep::Answered(4u8)), Some(Ok(4))));
    assert!(matches!(step_result::<u8>(PromptStep::Canceled), Some(Err(InquireError::OperationCanceled))));
    assert!(matches!(step_result::<u8>(PromptStep::Interrupted), Some(Err(InquireError::OperationInterrupted))));
    match step_result::<u8>(PromptStep::Failed(CustomUserError::new(String::from("boom")))) {
        Some(Err(InquireError::Custom(e))) => assert_eq!("boom", e.message),
        _ => panic!("the failure was not kept"),
    }
}

#[test]
fn errors_have_messages() {
    assert_eq!("The input device is not a TTY", InquireError::NotTTY.to_string());
    assert_eq!(
        "The prompt configuration is invalid: no options",
        InquireError::InvalidConfiguration("no options".to_string()).to_string()
    );
    assert_eq!("Operation was canceled by the user", InquireError::OperationCanceled.to_string());
    assert_eq!("Operation was interrupted by the user", InquireError::OperationInterrupted.to_string());
    assert_eq!(
        "User-provided error: boom",
        InquireError::Custom(CustomUserError::new("boom".to_string())).to_string()
    );
    let io = InquireError::IO(std::io::Error::new(std::io::ErrorKind::Other, "disk"));
    assert_eq!("IO error: disk", io.to_string());
}
