//! What one invocation does, given what it was handed: its arguments, the
//! text of the configuration and the time.

use crate::error::{ConfigError, ErrorView};
use crate::extract::{extract, extraction, listing, listing_of};
use crate::locate::texts;
use crate::paths::{export_command, export_line, output_location, output_path};
use vstd::prelude::*;

verus! {

/// What remains to be done at the end of an invocation.
#[derive(Debug, Clone, PartialEq, Eq)]
pub enum Outcome {
    /// Print `text`, the list of the contexts, and end with status 2.
    Listed { text: String },
    /// Write `document` to the file `path`, print `line`, and end with
    /// status 0.
    Extracted { path: String, document: String, line: String },
    /// Report `error` and end with status 1. Nothing is written.
    Failed { error: ConfigError },
}

/// Mathematical model of an `Outcome`.
pub ghost enum OutcomeView {
    Listed { text: Seq<char> },
    Extracted { path: Seq<char>, document: Seq<char>, line: Seq<char> },
    Failed { error: ErrorView },
}

impl View for Outcome {
    type V = OutcomeView;

    open spec fn view(&self) -> OutcomeView {
        match self {
            Outcome::Listed { text } => OutcomeView::Listed { text: text@ },
            Outcome::Extracted { path, document, line } => OutcomeView::Extracted {
                path: path@,
                document: document@,
                line: line@,
            },
            Outcome::Failed { error } => OutcomeView::Failed { error: error@ },
        }
    }
}

impl OutcomeView {
    /// The status with which the process ends.
    pub open spec fn status(self) -> int {
        match self {
            OutcomeView::Listed { .. } => 2,
            OutcomeView::Extracted { .. } => 0,
            OutcomeView::Failed { .. } => 1,
        }
    }
}

/// What an invocation with the arguments `arguments`, the program's name
/// first, comes to on the configuration `source` at the time `millis`.
/// Without a further argument the contexts are listed; with one, the context
/// of that name is extracted.
pub open spec fn outcome_of(arguments: Seq<Seq<char>>, source: Seq<char>, millis: nat)
    -> OutcomeView {
    if arguments.len() < 2 {
        match listing_of(source) {
            Ok(text) => OutcomeView::Listed { text },
            Err(error) => OutcomeView::Failed { error },
        }
    } else {
        match extraction(source, arguments[1]) {
            Ok(document) => OutcomeView::Extracted {
                path: output_location(millis),
                document,
                line: export_command(output_location(millis)),
            },
            Err(error) => OutcomeView::Failed { error },
        }
    }
}

impl Outcome {
    /// The status with which the process ends.
    pub fn status(&self) -> (r: u8)
        ensures
            r == self@.status(),
    {
        match self {
            Outcome::Listed { .. } => 2,
            Outcome::Extracted { .. } => 0,
            Outcome::Failed { .. } => 1,
        }
    }
}

/// Decides what an invocation does. `arguments` holds the program's name and
/// what follows it on the command line, `source` the text of the
/// configuration, `millis` the milliseconds since the start of 1970.
pub fn run(arguments: &Vec<String>, source: &str, millis: u128) -> (r: Outcome)
    ensures
        r@ == outcome_of(texts(arguments@), source@, millis as nat),
{
    if arguments.len() < 2 {
        match listing(source) {
            Ok(text) => Outcome::Listed { text },
            Err(error) => Outcome::Failed { error },
        }
    } else {
        match extract(source, arguments[1].as_str()) {
            Ok(document) => {
                let path = output_path(millis);
                let line = export_line(path.as_str());
                Outcome::Extracted { path, document, line }
            },
            Err(error) => Outcome::Failed { error },
        }
    }
}

} // verus!
