//! UI-related definitions: keys, colors, styles and render configuration.

pub mod color;
pub mod dimension;
pub mod key;
pub mod render_config;
pub mod style;

pub use color::Color;
pub use dimension::Dimension;
pub use key::{Key, KeyModifiers};
pub use style::{Attributes, StyleSheet, Styled};
pub use render_config::{CalendarRenderConfig, ErrorMessageRenderConfig, InputRenderConfig, RenderConfig};
pub mod backend;
pub mod old_terminal;
pub mod renderer;
pub mod input_reader;
