//! The reasons for which an operation on a counter is refused.

use vstd::prelude::*;

verus! {

/// Why an operation was refused. A refused operation changes nothing.
#[derive(Clone, Copy, Debug, PartialEq, Eq, Structural)]
pub enum CounterError {
    /// A record already exists at the address that was to be initialized.
    AlreadyInitialized,
    /// The caller is not the authority of the record.
    AuthorityMismatch,
    /// The count is zero and cannot be decremented.
    Underflow,
    /// The count is at the largest value and cannot be incremented.
    Overflow,
}

impl CounterError {
    /// The text of `message`.
    pub open spec fn spec_message(self) -> Seq<char> {
        match self {
            CounterError::AlreadyInitialized => "Counter is already initialized"@,
            CounterError::AuthorityMismatch => "Caller is not the authority of the counter"@,
            CounterError::Underflow => "Counter cannot go below zero"@,
            CounterError::Overflow => "Counter cannot go above the maximum"@,
        }
    }

    /// A line for a human reader that says what went wrong.
    pub fn message(&self) -> (text: &'static str)
        ensures
            text@ == self.spec_message(),
    {
        match self {
            CounterError::AlreadyInitialized => "Counter is already initialized",
            CounterError::AuthorityMismatch => "Caller is not the authority of the counter",
            CounterError::Underflow => "Counter cannot go below zero",
            CounterError::Overflow => "Counter cannot go above the maximum",
        }
    }
}

} // verus!
