//! How a line can end other than by being completed.

use crate::analytics::{Analytics, Tally};
use crate::decimal::{decimal, to_decimal};
use vstd::prelude::*;
use vstd::string::to_string_from_display_ensures;

verus! {

/// `std::io::Error`, carried through as an opaque value.
#[verifier::external_type_specification]
#[verifier::external_body]
pub struct ExIoError(std::io::Error);

/// Wrapper for an I/O error, and escape functionality.
/// Enables quick exit from typing: raised with the current data.
#[derive(Debug)]
pub enum LineError {
    /// The terminal or the key source failed.
    Io(std::io::Error),
    /// Esc was pressed; holds the counters of the line so far.
    Esc(Analytics),
}

impl From<std::io::Error> for LineError {
    fn from(err: std::io::Error) -> (e: LineError) {
        LineError::Io(err)
    }
}

impl vstd::std_specs::convert::FromSpecImpl<std::io::Error> for LineError {
    open spec fn obeys_from_spec() -> bool {
        true
    }

    open spec fn from_spec(err: std::io::Error) -> LineError {
        LineError::Io(err)
    }
}

/// What is said of an escape with the counters `tally`.
pub open spec fn escape_text(tally: Tally) -> Seq<char> {
    "Escape with\nErrors: "@ + decimal(tally.errors) + "\nTotal:"@ + decimal(
        tally.total_input_chars,
    ) + "\nString Lenght"@ + decimal(tally.line_length)
}

impl LineError {
    /// The error in words: an I/O error as it describes itself, an escape with
    /// its three counters.
    pub fn message(&self) -> (text: String)
        ensures
            match *self {
                LineError::Io(ref e) => to_string_from_display_ensures::<std::io::Error>(e, text),
                LineError::Esc(a) => text@ == escape_text(a@),
            },
    {
        match self {
            LineError::Io(e) => e.to_string(),
            LineError::Esc(a) => {
                let mut text = String::from_str("Escape with\nErrors: ");
                text.append(to_decimal(a.errors).as_str());
                text.append("\nTotal:");
                text.append(to_decimal(a.total_input_chars).as_str());
                text.append("\nString Lenght");
                text.append(to_decimal(a.line_length).as_str());
                text
            },
        }
    }

    /// The I/O error behind this one, if there is one.
    pub fn source(&self) -> (cause: Option<&std::io::Error>)
        ensures
            match *self {
                LineError::Io(ref e) => cause == Some(e),
                LineError::Esc(_) => cause is None,
            },
    {
        match self {
            LineError::Esc(_) => None,
            LineError::Io(e) => Some(e),
        }
    }
}

} // verus!
