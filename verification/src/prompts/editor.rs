//! The editor prompt's settings, and the choice of the editor it opens.

use crate::formatter::StringFormatter;
use crate::strings::to_owned_string;
use crate::ui::RenderConfig;
use crate::validator::StringValidator;
use vstd::prelude::*;

verus! {

/// The editor command: the `VISUAL` variable when set and not empty, else the
/// `EDITOR` variable when set and not empty, else `notepad` on Windows and
/// `nano` elsewhere.
pub open spec fn spec_editor_command(visual: Option<Seq<char>>, editor: Option<Seq<char>>, windows: bool) -> Seq<char> {
    if visual is Some && visual->0.len() > 0 {
        visual->0
    } else if editor is Some && editor->0.len() > 0 {
        editor->0
    } else if windows {
        "notepad"@
    } else {
        "nano"@
    }
}

/// Picks the editor command from the values of the `VISUAL` and `EDITOR`
/// variables (see [spec_editor_command]).
pub fn default_editor_command(visual: Option<&str>, editor: Option<&str>, windows: bool) -> (r: String)
    ensures
        r@ == spec_editor_command(
            match visual { Some(v) => Some(v@), None => None },
            match editor { Some(e) => Some(e@), None => None },
            windows,
        ),
{
    let mut chosen = if windows { to_owned_string("notepad") } else { to_owned_string("nano") };
    if let Some(e) = editor {
        if !e.is_empty() {
            chosen = to_owned_string(e);
        }
    }
    if let Some(v) = visual {
        if !v.is_empty() {
            chosen = to_owned_string(v);
        }
    }
    chosen
}

/// Shows a text written in the editor as "<received>".
#[derive(Copy, Clone, Debug)]
pub struct ReceivedFormatter;

impl ReceivedFormatter {
    /// "<received>", whatever the text.
    pub fn format_value(&self, value: &str) -> (r: String)
        ensures
            r@ == "<received>"@,
    {
        proof {
            reveal_strlit("<received>");
        }
        to_owned_string("<received>")
    }
}

impl StringFormatter for ReceivedFormatter {
    open spec fn spec_formats(&self, value: Seq<char>, text: Seq<char>) -> bool {
        text == "<received>"@
    }

    fn format(&self, value: &str) -> (r: String) {
        self.format_value(value)
    }
}

/// A prompt for a text that may not fit on one line: the user opens an editor
/// on a temporary file (with the `e` key), as often as they like, and submits
/// (with enter) what the file then holds.
pub struct Editor<'a> {
    /// Message presented to the user.
    pub message: &'a str,
    /// Command that opens the editor.
    pub editor_command: &'a str,
    /// Arguments passed to the editor command.
    pub editor_command_args: &'a [&'a str],
    /// Extension of the temporary file, dot included (such as ".rs").
    pub file_extension: &'a str,
    /// Text written into the temporary file before the editor opens.
    pub predefined_text: Option<&'a str>,
    /// Help message.
    pub help_message: Option<&'a str>,
    /// Formats the final answer.
    pub formatter: &'a dyn StringFormatter,
    /// Validators of the answer, applied in order.
    pub validators: Vec<&'a dyn StringValidator>,
    /// How the prompt is drawn.
    pub render_config: RenderConfig,
}

impl<'a> Editor<'a> {
    /// Whether the settings that builders do not change are those of `other`.
    pub open spec fn same_base(&self, other: &Self) -> bool {
        self.message == other.message
    }

    /// Whether `self` is `other` but for the editor's settings (command,
    /// arguments, file extension and predefined text).
    pub open spec fn same_but_editor(&self, other: &Self) -> bool {
        &&& self.same_base(other)
        &&& self.help_message == other.help_message
        &&& self.render_config == other.render_config
        &&& self.validators@ == other.validators@
    }

    /// A prompt with the given message, opening `editor_command` (see
    /// [default_editor_command] for the usual choice) with no arguments, on a
    /// ".txt" file with no predefined text, no help message, no validator, and
    /// the answer shown as "<received>".
    pub fn new(message: &'a str, editor_command: &'a str) -> (r: Self)
        ensures
            r.message == message,
            r.editor_command == editor_command,
            r.editor_command_args@.len() == 0,
            r.file_extension@ == ".txt"@,
            r.predefined_text is None,
            r.help_message is None,
            r.validators@.len() == 0,
    {
        proof {
            reveal_strlit(".txt");
        }
        let no_args: &'a [&'a str] = &[];
        Editor {
            message,
            editor_command,
            editor_command_args: no_args,
            file_extension: ".txt",
            predefined_text: None,
            help_message: None,
            formatter: &ReceivedFormatter,
            validators: Vec::new(),
            render_config: RenderConfig::default(),
        }
    }

    /// Sets the help message.
    pub fn with_help_message(self, message: &'a str) -> (r: Self)
        ensures
            r.help_message == Some(message), r.same_base(&self),
            r.editor_command == self.editor_command, r.editor_command_args == self.editor_command_args,
            r.file_extension == self.file_extension, r.predefined_text == self.predefined_text,
            r.validators@ == self.validators@,
    {
        let mut s = self;
        s.help_message = Some(message);
        s
    }

    /// Sets the text written into the temporary file.
    pub fn with_predefined_text(self, text: &'a str) -> (r: Self)
        ensures
            r.predefined_text == Some(text), r.same_but_editor(&self),
            r.editor_command == self.editor_command, r.editor_command_args == self.editor_command_args,
            r.file_extension == self.file_extension,
    {
        let mut s = self;
        s.predefined_text = Some(text);
        s
    }

    /// Sets the extension of the temporary file.
    pub fn with_file_extension(self, file_extension: &'a str) -> (r: Self)
        ensures
            r.file_extension == file_extension, r.same_but_editor(&self),
            r.editor_command == self.editor_command, r.editor_command_args == self.editor_command_args,
            r.predefined_text == self.predefined_text,
    {
        let mut s = self;
        s.file_extension = file_extension;
        s
    }

    /// Sets the command that opens the editor.
    pub fn with_editor_command(self, editor_command: &'a str) -> (r: Self)
        ensures
            r.editor_command == editor_command, r.same_but_editor(&self),
            r.editor_command_args == self.editor_command_args, r.file_extension == self.file_extension,
            r.predefined_text == self.predefined_text,
    {
        let mut s = self;
        s.editor_command = editor_command;
        s
    }

    /// Sets the arguments passed to the editor command.
    pub fn with_args(self, args: &'a [&'a str]) -> (r: Self)
        ensures
            r.editor_command_args == args, r.same_but_editor(&self),
            r.editor_command == self.editor_command, r.file_extension == self.file_extension,
            r.predefined_text == self.predefined_text,
    {
        let mut s = self;
        s.editor_command_args = args;
        s
    }

    /// Sets the formatter.
    pub fn with_formatter(self, formatter: &'a dyn StringFormatter) -> (r: Self)
        ensures
            r.same_but_editor(&self),
            r.formatter == formatter,
            r.editor_command == self.editor_command, r.editor_command_args == self.editor_command_args,
            r.file_extension == self.file_extension, r.predefined_text == self.predefined_text,
    {
        let mut s = self;
        let mut f = formatter;
        std::mem::swap(&mut s.formatter, &mut f);
        s
    }

    /// Adds a validator after those already set.
    pub fn with_validator(self, validator: &'a dyn StringValidator) -> (r: Self)
        ensures
            r.validators@ == self.validators@.push(validator),
            r.same_base(&self), r.help_message == self.help_message,
            r.editor_command == self.editor_command, r.editor_command_args == self.editor_command_args,
            r.file_extension == self.file_extension, r.predefined_text == self.predefined_text,
            r.validators@ == self.validators@.push(validator),
    {
        let mut s = self;
        s.validators.push(validator);
        s
    }

    /// Adds validators, in order, after those already set.
    pub fn with_validators(self, validators: &[&'a dyn StringValidator]) -> (r: Self)
        ensures
            r.validators@ == self.validators@ + validators@,
            r.same_base(&self), r.help_message == self.help_message,
            r.editor_command == self.editor_command, r.editor_command_args == self.editor_command_args,
            r.file_extension == self.file_extension, r.predefined_text == self.predefined_text,
    {
        let mut s = self;
        s.validators.extend_from_slice(validators);
        proof {
            assert forall|k: int| 0 <= k < s.validators@.len() implies #[trigger] s.validators@[k]
                == (self.validators@ + validators@)[k] by {
                if k >= self.validators@.len() {
                    let j = k - self.validators@.len();
                    assert(cloned::<&'a dyn StringValidator>(validators@[j], s.validators@[k]));
                }
            }
            assert(s.validators@ =~= self.validators@ + validators@);
        }
        s
    }

    /// Sets how the prompt is drawn.
    pub fn with_render_config(self, render_config: RenderConfig) -> (r: Self)
        ensures
            r.render_config == render_config, r.same_base(&self), r.help_message == self.help_message,
            r.editor_command == self.editor_command, r.editor_command_args == self.editor_command_args,
            r.file_extension == self.file_extension, r.predefined_text == self.predefined_text,
            r.validators@ == self.validators@,
    {
        let mut s = self;
        s.render_config = render_config;
        s
    }
}

/// The settings an editor prompt runs with: the command that opens the editor
/// and its arguments.
#[derive(Clone, Debug)]
pub struct EditorConfig {
    /// Command that opens the editor.
    pub editor_command: String,
    /// Arguments passed to the editor command.
    pub editor_command_args: Vec<String>,
}

impl EditorConfig {
    /// The settings of an editor prompt.
    pub fn from_editor(value: &Editor<'_>) -> (r: Self)
        ensures
            r.editor_command@ == value.editor_command@,
            r.editor_command_args@.len() == value.editor_command_args@.len(),
            forall|i: int| 0 <= i < r.editor_command_args@.len() ==>
                #[trigger] r.editor_command_args@[i]@ == value.editor_command_args@[i]@,
    {
        let mut args: Vec<String> = Vec::new();
        let mut i: usize = 0;
        while i < value.editor_command_args.len()
            invariant
                i <= value.editor_command_args@.len(),
                args@.len() == i,
                forall|j: int| 0 <= j < i ==> #[trigger] args@[j]@ == value.editor_command_args@[j]@,
            decreases value.editor_command_args@.len() - i,
        {
            args.push(to_owned_string(value.editor_command_args[i]));
            i = i + 1;
        }
        EditorConfig { editor_command: to_owned_string(value.editor_command), editor_command_args: args }
    }
}

} // verus!
