use inquire::input::{InputAction, LineDirection, Magnitude};
use inquire::ui::{Key, KeyModifiers};

#[test]
fn backspace_results_in_delete_char_left() {
    assert_eq!(
        InputAction::from_key(Key::Backspace, &()),
        Some(InputAction::Delete(Magnitude::Char, LineDirection::Left))
    );
}

#[test]
fn delete_results_in_delete_char_right() {
    assert_eq!(
        InputAction::from_key(Key::Delete(KeyModifiers::none()), &()),
        Some(InputAction::Delete(Magnitude::Char, LineDirection::Right))
    );
}

#[test]
fn ctrl_delete_results_in_delete_word_right() {
    assert_eq!(
        InputAction::from_key(Key::Delete(KeyModifiers::control()), &()),
        Some(InputAction::Delete(Magnitude::Word, LineDirection::Right))
    );
}

#[test]
fn ctrl_backspace_does_nothing() {
    assert_eq!(
        InputAction::from_key(Key::Char('h', KeyModifiers::control()), &()),
        None
    );
}

#[test]
fn horizontal_arrows_results_in_move_cursor_char() {
    assert_eq!(
        InputAction::from_key(Key::Left(KeyModifiers::none()), &()),
        Some(InputAction::MoveCursor(Magnitude::Char, LineDirection::Left))
    );
    assert_eq!(
        InputAction::from_key(Key::Right(KeyModifiers::none()), &()),
        Some(InputAction::MoveCursor(Magnitude::Char, LineDirection::Right))
    );
}

#[test]
fn vertical_arrows_do_nothing() {
    assert_eq!(InputAction::from_key(Key::Up(KeyModifiers::none()), &()), None);
    assert_eq!(InputAction::from_key(Key::Down(KeyModifiers::none()), &()), None);
}

#[test]
fn home_moves_to_beginning_of_line() {
    assert_eq!(
        InputAction::from_key(Key::Home, &()),
        Some(InputAction::MoveCursor(Magnitude::Line, LineDirection::Left))
    );
}

#[test]
fn end_moves_to_end_of_line() {
    assert_eq!(
        InputAction::from_key(Key::End, &()),
        Some(InputAction::MoveCursor(Magnitude::Line, LineDirection::Right))
    );
}

#[test]
fn arrows_with_ctrl_move_by_word() {
    assert_eq!(
        InputAction::from_key(Key::Left(KeyModifiers::control()), &()),
        Some(InputAction::MoveCursor(Magnitude::Word, LineDirection::Left))
    );
    assert_eq!(
        InputAction::from_key(Key::Right(KeyModifiers::control()), &()),
        Some(InputAction::MoveCursor(Magnitude::Word, LineDirection::Right))
    );
}

#[test]
fn chars_generate_write_actions() {
    assert_eq!(
        InputAction::from_key(Key::Char('a', KeyModifiers::none()), &()),
        Some(InputAction::Write('a'))
    );
    assert_eq!(
        InputAction::from_key(Key::Char('a', KeyModifiers::shift()), &()),
        Some(InputAction::Write('a'))
    );
    assert_eq!(
        InputAction::from_key(Key::Char('∑', KeyModifiers::none()), &()),
        Some(InputAction::Write('∑'))
    );
    assert_eq!(
        InputAction::from_key(Key::Char('ã', KeyModifiers::shift()), &()),
        Some(InputAction::Write('ã'))
    );
    assert_eq!(
        InputAction::from_key(Key::Char('❤', KeyModifiers::shift()), &()),
        Some(InputAction::Write('❤'))
    );
    assert_eq!(
        InputAction::from_key(Key::Char('ç', KeyModifiers::shift()), &()),
        Some(InputAction::Write('ç'))
    );
    assert_eq!(
        InputAction::from_key(Key::Char('ñ', KeyModifiers::shift()), &()),
        Some(InputAction::Write('ñ'))
    );
}

#[test]
fn page_up_and_down_do_nothing() {
    assert_eq!(InputAction::from_key(Key::PageUp(KeyModifiers::none()), &()), None);
    assert_eq!(InputAction::from_key(Key::PageDown(KeyModifiers::none()), &()), None);
}
