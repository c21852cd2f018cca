//! Styled terminal output: colors, text attributes and hyperlinks rendered as
//! ANSI escape sequences, with a policy that decides per output target whether
//! to emit them at all.

pub mod ansi;
pub mod choice;
pub mod color;
pub mod parse;
pub mod streams;
pub mod strings;
pub mod style;
pub mod text;
pub mod traits;
pub mod writers;

pub use ansi::{ansi_color, ansi_color_only, ansi_spec, AnsiColor};
pub use choice::{ColorChoice, ColorChoiceParseError, Environment, Platform, TermValue};
pub use color::Color;
pub use parse::{ColorSpecParseError, ParseColorError, ParseColorErrorKind};
pub use streams::{
    BufferWriter, BufferedStandardStream, Device, IoStandardStream, StandardStream,
    StandardStreamLock,
};
pub use strings::{StringWriter, TermString};
pub use style::{ColorSpec, HyperlinkSpec, Setting};
pub use traits::WriteColor;
pub use writers::{Ansi, Buffer, NoColor, WriterInner};
