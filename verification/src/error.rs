//! The single user-facing error kind: a message wrapping an underlying
//! sink failure.

use vstd::prelude::*;

verus! {

/// A logging failure, carrying the underlying failure's text.
#[derive(Debug)]
pub struct LogError {
    pub message: String,
}

impl LogError {
    /// Wraps a failure message.
    pub fn new(message: &str) -> (e: Self)
        ensures
            e.message@ == message@,
    {
        LogError { message: String::from_str(message) }
    }

    /// The failure's text.
    pub fn text(&self) -> (r: &str)
        ensures
            r@ == self.message@,
    {
        self.message.as_str()
    }
}

} // verus!
