//! Counters kept while a line is typed.

use vstd::prelude::*;

verus! {

/// The counters as unbounded numbers: what an `Analytics` stands for in contracts.
pub struct Tally {
    /// Keystrokes that were wrong or invalid.
    pub errors: nat,
    /// Keystrokes that advanced the input state.
    pub total_input_chars: nat,
    /// Characters consumed from the target line: the cursor's offset.
    pub line_length: nat,
}

impl Tally {
    /// The counters of a line on which nothing has been typed yet.
    pub open spec fn zero() -> Tally {
        Tally { errors: 0, total_input_chars: 0, line_length: 0 }
    }

    /// Every counter can be held in a `u64`.
    pub open spec fn fits(self) -> bool {
        &&& self.errors <= u64::MAX
        &&& self.total_input_chars <= u64::MAX
        &&& self.line_length <= u64::MAX
    }

    /// No more characters were consumed than keystrokes were counted.
    pub open spec fn consistent(self) -> bool {
        self.line_length <= self.total_input_chars
    }

    /// The same counters with `n` more errors.
    pub open spec fn with_errors(self, n: nat) -> Tally {
        Tally { errors: self.errors + n, ..self }
    }
}

/// Struct to hold analytics about the user's performance.
#[derive(Debug, Clone, Copy, PartialEq, Eq, Structural)]
pub struct Analytics {
    pub errors: u64,
    pub total_input_chars: u64,
    pub line_length: u64,
}

impl View for Analytics {
    type V = Tally;

    open spec fn view(&self) -> Tally {
        Tally {
            errors: self.errors as nat,
            total_input_chars: self.total_input_chars as nat,
            line_length: self.line_length as nat,
        }
    }
}

impl Analytics {
    pub fn new(errors: u64, total_input_chars: u64, line_length: u64) -> (a: Analytics)
        ensures
            a.errors == errors,
            a.total_input_chars == total_input_chars,
            a.line_length == line_length,
    {
        Analytics { errors, total_input_chars, line_length }
    }
}

} // verus!
