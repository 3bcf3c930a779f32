//! A library for building interactive prompts on terminals: text editing,
//! option lists with filtering and pagination, parsing and validation of
//! answers, and the styling that rendering uses.

pub mod segmentation;
pub mod strings;
pub mod ui;
pub mod input;
pub mod key;
pub mod text_input;
pub mod list_option;
pub mod utils;
pub mod paging;
pub mod error;
pub mod decimal;
pub mod validator;
pub mod ansi;
pub mod terminal;
pub mod basic_terminal;
pub mod answer;
pub mod question;
pub mod type_aliases;
pub mod formatter;
pub mod prompts;
pub mod multiselect;
pub mod renderer;
pub mod parser;
pub mod date;
pub mod autocompletion;
