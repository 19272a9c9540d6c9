//! Output modes: how a consumer wants the events of a session rendered.

use vstd::prelude::*;
use crate::event::TranscriptEvent;

verus! {

/// How events are rendered.
#[derive(Debug, Clone, Copy, PartialEq, Eq, Structural)]
pub enum OutputFormat {
    /// One record per line, with every field that is present.
    Json,
    /// The text of each event and nothing else.
    Text,
}

/// The format that a name stands for: the name `text` for plain text, every
/// other name for records.
pub open spec fn format_of(name: Seq<char>) -> OutputFormat {
    if name == "text"@ {
        OutputFormat::Text
    } else {
        OutputFormat::Json
    }
}

/// The line that renders an event as plain text; records have no such line.
pub open spec fn plain_line_of(format: OutputFormat, text: Seq<char>) -> Option<Seq<char>> {
    match format {
        OutputFormat::Text => Some(text),
        OutputFormat::Json => None,
    }
}

impl OutputFormat {
    /// Reads a format from its name.
    pub fn from_name(name: &str) -> (format: OutputFormat)
        ensures
            format == format_of(name@),
    {
        let given: String = name.to_owned();
        let plain: String = "text".to_owned();
        if given == plain {
            OutputFormat::Text
        } else {
            OutputFormat::Json
        }
    }

    /// The line to print for `event` where the format is plain text; `None`
    /// where the event is to be rendered as a record.
    pub fn plain_line(&self, event: &TranscriptEvent) -> (line: Option<String>)
        ensures
            match line {
                Some(text) => plain_line_of(*self, event@.text) == Some(text@),
                None => plain_line_of(*self, event@.text) is None,
            },
    {
        match self {
            OutputFormat::Text => Some(event.text.clone()),
            OutputFormat::Json => None,
        }
    }
}

} // verus!
