//! The log of a run: text that only grows.
//!
//! The log keeps what was written to it. Showing each entry on the standard
//! error stream as it is written is left to the caller.

use std::fmt::Debug;
use vstd::prelude::*;

verus! {

/// An append-only text log.
#[derive(Debug, PartialEq, Eq)]
pub struct LoggerRef {
    pub log: String,
}

/// Renders a value with its `Debug` implementation, as `format!` of std does
/// for `{:?}`.
///
/// Trusted, and nothing is claimed of the text: it is whatever the
/// implementation of the value's type writes.
#[verifier::external_body]
pub(crate) fn debug_text<T: Debug>(value: &T) -> (text: String) {
    format!("{:?}", value)
}

impl Default for LoggerRef {
    fn default() -> (logger: LoggerRef)
        ensures
            logger.log@ == Seq::<char>::empty(),
    {
        LoggerRef { log: String::new() }
    }
}

impl LoggerRef {
    /// An empty log.
    pub fn new() -> (logger: LoggerRef)
        ensures
            logger.log@ == Seq::<char>::empty(),
    {
        LoggerRef { log: String::new() }
    }

    /// Appends `string` to the log, with nothing before or after it.
    pub fn log_str(&mut self, string: &str)
        ensures
            final(self).log@ == old(self).log@ + string@,
    {
        self.log.append(string);
    }

    /// Appends an error, as its `Debug` implementation renders it, and
    /// returns what was appended.
    pub fn log_err<E: Debug>(&mut self, error: &E) -> (entry: String)
        ensures
            final(self).log@ == old(self).log@ + entry@,
    {
        let entry = debug_text(error);
        self.log_str(entry.as_str());
        entry
    }

    /// Hands a result on unchanged; if it is an error, the log grows by it,
    /// and else the log stays as it is.
    pub fn log_result<T, E: Debug>(&mut self, result: Result<T, E>) -> (same: Result<T, E>)
        ensures
            same == result,
            result is Ok ==> final(self).log@ == old(self).log@,
            result is Err ==> old(self).log@.is_prefix_of(final(self).log@),
    {
        match result {
            Ok(value) => Ok(value),
            Err(error) => {
                let _ = self.log_err(&error);
                Err(error)
            },
        }
    }

    /// Everything that was logged so far.
    pub fn to_string(&self) -> (text: String)
        ensures
            text@ == self.log@,
    {
        self.log.clone()
    }
}

} // verus!
