//! The input source descriptor: where the text comes from, and which reader
//! strategy that implies.

use vstd::prelude::*;

verus! {

/// Where the pager reads from: a named file, or standard input. A file is
/// read eagerly, so its buffer starts complete; standard input is fed by a
/// background reader.
pub enum InputMode {
    Stdin,
    File(String),
}

/// The conventional command-line rule: a lone dash names standard input,
/// anything else is a file path.
pub open spec fn spec_input_mode(raw: String) -> InputMode {
    if raw@ == "-"@ {
        InputMode::Stdin
    } else {
        InputMode::File(raw)
    }
}

impl InputMode {
    /// Parses the positional argument.
    pub fn from_arg(raw: String) -> (r: InputMode)
        ensures
            r == spec_input_mode(raw),
    {
        let dash: String = "-".to_owned();
        if raw == dash {
            InputMode::Stdin
        } else {
            InputMode::File(raw)
        }
    }

    /// Whether the source is standard input, the case that needs a
    /// background reader and must be refused on an interactive terminal.
    pub fn is_stdin(&self) -> (r: bool)
        ensures
            r == (self is Stdin),
    {
        match self {
            InputMode::Stdin => true,
            InputMode::File(_) => false,
        }
    }
}

} // verus!
