//! The logging call contract. Where log lines are persisted is outside the
//! core: the dispatcher only calls `log` and treats failures as non-fatal.

use vstd::prelude::*;

verus! {

/// Failure to persist a log line; never fatal to the router.
#[derive(Debug)]
pub struct LogError(pub String);

/// A destination for log lines. Implemented outside the core (a file-backed
/// logger, a test recorder); the dispatcher promises nothing about what the
/// sink does with a line.
pub trait LogSink {
    /// Writes one line, tagged with the originating source and a channel
    /// label.
    fn log(&mut self, source_id: &str, channel: String, text: String) -> Result<(), LogError>;
}

} // verus!
