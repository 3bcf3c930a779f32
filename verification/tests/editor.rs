use inquire::prompts::editor::{Editor, EditorConfig, ReceivedFormatter};
use inquire::prompts::editor::default_editor_command;

#[test]
fn visual_wins_over_editor_and_defaults() {
    assert_eq!("vim", default_editor_command(Some("vim"), Some("emacs"), false));
    assert_eq!("emacs", default_editor_command(Some(""), Some("emacs"), false));
    assert_eq!("emacs", default_editor_command(None, Some("emacs"), true));
    assert_eq!("nano", default_editor_command(None, Some(""), false));
    assert_eq!("notepad", default_editor_command(None, None, true));
}

#[test]
fn editor_builders_set_the_editor() {
    let args = ["-w", "--new"];
    let e = Editor::new("Describe", "nano")
        .with_predefined_text("draft")
        .with_file_extension(".md")
        .with_editor_command("code")
        .with_args(&args)
        .with_help_message("e to edit");
    assert_eq!("code", e.editor_command);
    assert_eq!(".md", e.file_extension);
    assert_eq!(Some("draft"), e.predefined_text);
    assert_eq!(Some("e to edit"), e.help_message);
    let config = EditorConfig::from_editor(&e);
    assert_eq!("code", config.editor_command);
    assert_eq!(vec!["-w".to_string(), "--new".to_string()], config.editor_command_args);
    assert_eq!("<received>", ReceivedFormatter.format_value("anything"));
    assert_eq!(".txt", Editor::new("Describe", "vi").file_extension);
}
