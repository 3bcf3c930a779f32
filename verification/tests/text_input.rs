use inquire::key::{Key, KeyModifiers};
use inquire::text_input::Input;

#[test]
fn move_previous_word() {
    let content = "great 🌍, 🍞, 🚗, 1231321📞, 🎉, 🍆xsa232 s2da ake iak eaik";

    let assert = |expected: usize, initial: usize| {
        let mut input = Input::new().with_content(content).with_cursor(initial);

        let dirty = input.handle_key(Key::Left(KeyModifiers::control()));
        assert_eq!(expected != initial, dirty,
            "dirty '{}' is not equal to expected '{}' because of initial and expected cursors '{}' and '{}'",
            dirty, expected != initial, initial, expected);
        assert_eq!(
            expected,
            input.cursor(),
            "unexpected result cursor from initial {}",
            initial
        );
    };

    for i in 0..16 {
        assert(0, i);
    }
    for i in 16..30 {
        assert(15, i);
    }
    for i in 30..37 {
        assert(29, i);
    }
    for i in 37..42 {
        assert(36, i);
    }
    for i in 42..46 {
        assert(41, i);
    }
    for i in 46..50 {
        assert(45, i);
    }
    for i in 50..54 {
        assert(49, i);
    }
}

#[test]
fn split_around_cursor() {
    let input = Input::new().with_content("abc").with_cursor(1);
    let (before, at, after) = input.split();
    assert_eq!("a", before);
    assert_eq!("b", at);
    assert_eq!("c", after);
}
