use inquire::multiselect::{MultiSelect, MultiSelectOptions, TermKey};
use inquire::basic_terminal::{Style, Terminal};
use inquire::renderer::{Renderer, Token};
use inquire::ui::Color;

#[test]
fn token_sets_and_resets_its_style() {
    let mut terminal = Terminal::new_with_io(Vec::new());
    Token::new("hi").with_fg(Color::DarkRed).with_bg(Color::Grey).with_style(Style::Bold).print(&mut terminal).unwrap();
    Token::empty().with_fg(Color::DarkRed).print(&mut terminal).unwrap();
    Token::new("plain").print(&mut terminal).unwrap();
    assert_eq!(
        "\x1b[38;5;1m\x1b[48;5;7m\x1b[1mhi\x1b[39m\x1b[49m\x1b[0mplain\x1b[?25h",
        terminal.close()
    );
}

#[test]
fn renderer_lines_and_reset() {
    let mut terminal = Terminal::new_with_io(Vec::new());
    let mut renderer = Renderer::default();
    renderer.print_prompt(&mut terminal, "Q", Some("d"), Some("x")).unwrap();
    renderer.print_option(&mut terminal, true, "a").unwrap();
    renderer.print_multi_option(&mut terminal, false, false, "b").unwrap();
    renderer.reset_prompt(&mut terminal).unwrap();
    renderer.print_prompt_answer(&mut terminal, "Q", "x").unwrap();
    let erase = "\x1b[1A\x1b[1G\x1b[2K";
    let expected = format!(
        "\x1b[38;5;2m? \x1b[39mQ (d)\x1b[1m x\x1b[0m\x1b[1G\n\x1b[38;5;6m> a\x1b[39m\x1b[1G\n  [ ] b\x1b[1G\n{}{}{}\x1b[38;5;2m? \x1b[39mQ\x1b[38;5;6m x\x1b[39m\x1b[1G\n\x1b[?25h",
        erase, erase, erase
    );
    assert_eq!(expected, terminal.close());
}

#[test]
fn renderer_error_and_help_on_dull_terminal() {
    let mut terminal = Terminal::new_with_io(Vec::new()).dull();
    let mut renderer = Renderer::default();
    renderer.print_error_message(&mut terminal, "bad").unwrap();
    renderer.print_help(&mut terminal, "help").unwrap();
    renderer.print_tokens(&mut terminal, &[Token::new("a").with_fg(Color::DarkRed), Token::new("b")]).unwrap();
    assert_eq!("# bad\x1b[1G\n[help]\x1b[1G\nab\x1b[?25h", terminal.close());
}

#[test]
fn old_multiselect_frame_lists_options() {
    let options = ["a", "b"];
    let mso = MultiSelectOptions::new("Pick", &options).unwrap().with_help_message("h");
    let mut select = MultiSelect::from_options(mso);
    select.handle_key(TermKey::Char(' '));
    assert!(select.render_ready());
    let mut terminal = Terminal::new_with_io(Vec::new());
    select.render(&mut terminal).unwrap();
    select.cleanup(&mut terminal, "a").unwrap();
    let erase = "\x1b[1A\x1b[1G\x1b[2K";
    let expected = format!(
        "\x1b[38;5;2m? \x1b[39mPick\x1b[1G\n\x1b[38;5;6m> \x1b[39m\x1b[38;5;2m[x] \x1b[39ma\x1b[1G\n  [ ] b\x1b[1G\n\x1b[38;5;6m[h]\x1b[39m\x1b[1G\n{}{}{}{}\x1b[38;5;2m? \x1b[39mPick\x1b[38;5;6m a\x1b[39m\x1b[1G\n\x1b[?25h",
        erase, erase, erase, erase
    );
    assert_eq!(expected, terminal.close());
}
