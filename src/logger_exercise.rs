//! A logger trait and a filter that drops messages above a verbosity.
use vstd::prelude::*;

verus! {

pub trait Logger {
    /// Log a message at the given verbosity level.
    fn log(&self, verbosity: u8, message: &str);
}

/// Passes on to `inner` only the messages whose verbosity is at most
/// `max_verbosity`.
pub struct VerbosityFilter<L: Logger> {
    pub max_verbosity: u8,
    pub inner: L,
}

impl<L: Logger> VerbosityFilter<L> {
    /// Whether a message of `verbosity` gets through.
    pub fn admits(&self, verbosity: u8) -> (r: bool)
        ensures
            r == (verbosity <= self.max_verbosity),
    {
        verbosity <= self.max_verbosity
    }
}

impl<L: Logger> Logger for VerbosityFilter<L> {
    fn log(&self, verbosity: u8, message: &str) {
        if self.admits(verbosity) {
            self.inner.log(verbosity, message);
        }
    }
}

/// Logs a verbose and a quiet message through a filter of verbosity three
/// in front of `inner`: only the quiet one reaches it.
pub fn test_logger<L: Logger>(inner: L) {
    let logger = VerbosityFilter { max_verbosity: 3, inner };
    logger.log(5, "FYI");
    logger.log(2, "Uhoh");
}

} // verus!
