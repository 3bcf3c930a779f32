use inquire::basic_terminal::{Style, Terminal as BasicTerminal};
use inquire::terminal::{CrosstermTerminal, Terminal};
use inquire::ui::old_terminal::OldTerminal;
use inquire::ui::{Attributes, Color};

#[test]
fn terminal_writer() {
    let mut terminal = BasicTerminal::new_with_io(Vec::new());
    terminal.write("testing ").unwrap();
    terminal.write("writing ").unwrap();
    terminal.flush().unwrap();
    terminal.write("wow").unwrap();
    let write = terminal.close();

    assert_eq!("testing writing wow\x1B[?25h", write);
}

#[test]
fn terminal_style_management() {
    let mut terminal = BasicTerminal::new_with_io(Vec::new());
    terminal.set_style(Style::Bold).unwrap();
    terminal.set_style(Style::Italic).unwrap();
    terminal.set_style(Style::Bold).unwrap();
    terminal.reset_style().unwrap();
    let write = terminal.close();

    assert_eq!("\x1B[1m\x1B[3m\x1B[1m\x1B[0m\x1B[?25h", write);
}

#[test]
fn terminal_fg_color_management() {
    let mut terminal = BasicTerminal::new_with_io(Vec::new());
    terminal.set_fg_color(Color::LightRed).unwrap();
    terminal.reset_fg_color().unwrap();
    terminal.set_fg_color(Color::Black).unwrap();
    terminal.set_fg_color(Color::LightGreen).unwrap();
    let write = terminal.close();

    assert_eq!(
        "\x1B[38;5;9m\x1B[39m\x1B[38;5;0m\x1B[38;5;10m\x1B[?25h",
        write
    );
}

#[test]
fn terminal_bg_color_management() {
    let mut terminal = BasicTerminal::new_with_io(Vec::new());
    terminal.set_bg_color(Color::LightRed).unwrap();
    terminal.reset_bg_color().unwrap();
    terminal.set_bg_color(Color::Black).unwrap();
    terminal.set_bg_color(Color::LightGreen).unwrap();
    let write = terminal.close();

    assert_eq!(
        "\x1B[48;5;9m\x1B[49m\x1B[48;5;0m\x1B[48;5;10m\x1B[?25h",
        write
    );
}

#[test]
fn terminal_dull_ignores_fg_bg_style() {
    let mut terminal = BasicTerminal::new_with_io(Vec::new()).dull();
    terminal.set_style(Style::Bold).unwrap();
    terminal.set_style(Style::Italic).unwrap();
    terminal.set_style(Style::Bold).unwrap();
    terminal.reset_style().unwrap();
    terminal.set_bg_color(Color::LightRed).unwrap();
    terminal.reset_bg_color().unwrap();
    terminal.set_bg_color(Color::Black).unwrap();
    terminal.set_bg_color(Color::LightGreen).unwrap();
    terminal.write("wow").unwrap();
    terminal.set_fg_color(Color::LightRed).unwrap();
    terminal.reset_fg_color().unwrap();
    terminal.set_fg_color(Color::Black).unwrap();
    terminal.set_fg_color(Color::LightGreen).unwrap();
    let write = terminal.close();

    assert_eq!("wow\x1B[?25h", write);
}

#[test]
fn crossterm_writer() {
    let mut terminal = CrosstermTerminal::new_with_io(Vec::new());
    terminal.write("testing ").unwrap();
    terminal.write("writing ").unwrap();
    terminal.flush().unwrap();
    terminal.write("wow").unwrap();

    assert_eq!("testing writing wow", terminal.output());
}

#[test]
fn crossterm_style_management() {
    let mut terminal = CrosstermTerminal::new_with_io(Vec::new());
    terminal.set_attributes(Attributes::bold()).unwrap();
    terminal.set_attributes(Attributes::italic()).unwrap();
    terminal.set_attributes(Attributes::bold()).unwrap();
    terminal.reset_attributes().unwrap();

    assert_eq!("\x1B[1m\x1B[3m\x1B[1m\x1B[0m", terminal.output());
}

#[test]
fn crossterm_style_management_with_flags() {
    let mut terminal = CrosstermTerminal::new_with_io(Vec::new());
    terminal
        .set_attributes(Attributes::bold().union(Attributes::italic()).union(Attributes::bold()))
        .unwrap();
    terminal.reset_attributes().unwrap();

    assert_eq!("\x1B[1m\x1B[3m\x1B[0m", terminal.output());
}

#[test]
fn crossterm_fg_color_management() {
    let mut terminal = CrosstermTerminal::new_with_io(Vec::new());
    terminal.set_fg_color(Color::LightRed).unwrap();
    terminal.reset_fg_color().unwrap();
    terminal.set_fg_color(Color::Black).unwrap();
    terminal.set_fg_color(Color::LightGreen).unwrap();

    assert_eq!(
        "\x1B[38;5;9m\x1B[39m\x1B[38;5;0m\x1B[38;5;10m",
        terminal.output()
    );
}

#[test]
fn crossterm_bg_color_management() {
    let mut terminal = CrosstermTerminal::new_with_io(Vec::new());
    terminal.set_bg_color(Color::LightRed).unwrap();
    terminal.reset_bg_color().unwrap();
    terminal.set_bg_color(Color::Black).unwrap();
    terminal.set_bg_color(Color::LightGreen).unwrap();

    assert_eq!(
        "\x1B[48;5;9m\x1B[49m\x1B[48;5;0m\x1B[48;5;10m",
        terminal.output()
    );
}

#[test]
fn old_terminal_writer() {
    let mut terminal = OldTerminal::new_with_io(Vec::new());
    terminal.write("testing ").unwrap();
    terminal.write("writing ").unwrap();
    terminal.flush().unwrap();
    terminal.write("wow").unwrap();
    let write = terminal.close();

    assert_eq!("testing writing wow\x1B[?25h", write);
}

#[test]
fn old_terminal_style_management() {
    let mut terminal = OldTerminal::new_with_io(Vec::new());
    terminal.set_attributes(Attributes::bold()).unwrap();
    terminal.set_attributes(Attributes::italic()).unwrap();
    terminal.set_attributes(Attributes::bold()).unwrap();
    terminal.reset_attributes().unwrap();
    let write = terminal.close();

    assert_eq!("\x1B[1m\x1B[3m\x1B[1m\x1B[0m\x1B[?25h", write);
}

#[test]
fn old_terminal_style_management_with_flags() {
    let mut terminal = OldTerminal::new_with_io(Vec::new());
    terminal
        .set_attributes(Attributes::bold().union(Attributes::italic()).union(Attributes::bold()))
        .unwrap();
    terminal.reset_attributes().unwrap();
    let write = terminal.close();

    assert_eq!("\x1B[1m\x1B[3m\x1B[0m\x1B[?25h", write);
}

#[test]
fn old_terminal_fg_color_management() {
    let mut terminal = OldTerminal::new_with_io(Vec::new());
    terminal.set_fg_color(Color::LightRed).unwrap();
    terminal.reset_fg_color().unwrap();
    terminal.set_fg_color(Color::Black).unwrap();
    terminal.set_fg_color(Color::LightGreen).unwrap();
    let write = terminal.close();

    assert_eq!(
        "\x1B[38;5;9m\x1B[39m\x1B[38;5;0m\x1B[38;5;10m\x1B[?25h",
        write
    );
}

#[test]
fn old_terminal_bg_color_management() {
    let mut terminal = OldTerminal::new_with_io(Vec::new());
    terminal.set_bg_color(Color::LightRed).unwrap();
    terminal.reset_bg_color().unwrap();
    terminal.set_bg_color(Color::Black).unwrap();
    terminal.set_bg_color(Color::LightGreen).unwrap();
    let write = terminal.close();

    assert_eq!(
        "\x1B[48;5;9m\x1B[49m\x1B[48;5;0m\x1B[48;5;10m\x1B[?25h",
        write
    );
}

#[test]
fn old_terminal_dull_ignores_fg_bg_style() {
    let mut terminal = OldTerminal::new_with_io(Vec::new()).dull();
    terminal
        .set_attributes(Attributes::bold().union(Attributes::italic()))
        .unwrap();
    terminal.reset_attributes().unwrap();
    terminal.set_bg_color(Color::LightRed).unwrap();
    terminal.reset_bg_color().unwrap();
    terminal.set_bg_color(Color::Black).unwrap();
    terminal.set_bg_color(Color::LightGreen).unwrap();
    terminal.write("wow").unwrap();
    terminal.set_fg_color(Color::LightRed).unwrap();
    terminal.reset_fg_color().unwrap();
    terminal.set_fg_color(Color::Black).unwrap();
    terminal.set_fg_color(Color::LightGreen).unwrap();
    let write = terminal.close();

    assert_eq!("wow\x1B[?25h", write);
}

#[test]
fn styled_writes_reset_what_they_set() {
    let mut terminal = OldTerminal::new_with_io(Vec::new());
    let styled = inquire::ui::Styled::new("hi").with_fg(Color::DarkRed).with_attr(Attributes::bold());
    terminal.write_styled(styled).unwrap();
    assert_eq!("\x1B[38;5;1m\x1B[1mhi\x1B[39m\x1B[0m\x1B[?25h", terminal.close());
}

#[test]
fn crossterm_write_converts_newlines() {
    let mut terminal = CrosstermTerminal::new_with_io(Vec::new());
    terminal.write("a\nb").unwrap();
    assert_eq!("a\r\nb", terminal.output());
    assert_eq!("a\r\nb", terminal.get_in_memory_content());
    terminal.clear_in_memory_content();
    assert_eq!("", terminal.get_in_memory_content());
}

#[test]
fn cursor_movements_are_encoded() {
    let mut terminal = CrosstermTerminal::new_with_io(Vec::new());
    terminal.cursor_up(2).unwrap();
    terminal.cursor_down(3).unwrap();
    terminal.cursor_move_to_column(0).unwrap();
    terminal.clear_current_line().unwrap();
    terminal.cursor_hide().unwrap();
    assert_eq!("\x1B[2A\x1B[3B\x1B[1G\x1B[2K\x1B[?25l", terminal.output());
}

#[test]
fn rgb_colors_are_encoded() {
    let mut terminal = CrosstermTerminal::new_with_io(Vec::new());
    terminal.set_fg_color(Color::rgb(1, 22, 255)).unwrap();
    terminal.set_bg_color(Color::AnsiValue(200)).unwrap();
    assert_eq!("\x1B[38;2;1;22;255m\x1B[48;5;200m", terminal.output());
}
