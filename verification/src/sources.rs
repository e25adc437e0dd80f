//! The contract every protocol adapter implements, and the error taxonomy
//! adapters report with. The core never sees a concrete backend: it only
//! calls through this trait.

use vstd::prelude::*;
use crate::types::{Channel, ChannelV, ContentV, MessageContent, SourceId};

verus! {

/// An error type for the application
#[derive(Debug)]
pub enum SourceError {
    Eof(SourceId),
    Disconnected(SourceId),
    ConnectionError(SourceId, String),
    InvalidChannel(SourceId, Channel),
    InvalidMessage(SourceId, MessageContent),
    Other(String),
}

/// Mathematical image of a `SourceError`.
pub enum SourceErrorV {
    Eof(Seq<char>),
    Disconnected(Seq<char>),
    ConnectionError(Seq<char>, Seq<char>),
    InvalidChannel(Seq<char>, ChannelV),
    InvalidMessage(Seq<char>, ContentV),
    Other(Seq<char>),
}

impl View for SourceError {
    type V = SourceErrorV;

    open spec fn view(&self) -> SourceErrorV {
        match self {
            SourceError::Eof(id) => SourceErrorV::Eof(id@),
            SourceError::Disconnected(id) => SourceErrorV::Disconnected(id@),
            SourceError::ConnectionError(id, r) => SourceErrorV::ConnectionError(id@, r@),
            SourceError::InvalidChannel(id, c) => SourceErrorV::InvalidChannel(id@, c@),
            SourceError::InvalidMessage(id, m) => SourceErrorV::InvalidMessage(id@, m@),
            SourceError::Other(t) => SourceErrorV::Other(t@),
        }
    }
}

/// A more concise result type
pub type SourceResult<T> = Result<T, SourceError>;

/// Trait representing a source of events
pub trait EventSource {
    /// Gets the bot's nickname on this source
    fn get_nick(&self) -> String;

    /// Connects to the source
    fn connect(&mut self) -> SourceResult<()>;

    /// Joins a channel in the source
    fn join(&mut self, channel: &str) -> SourceResult<()>;

    /// Sends a message to the source
    fn send(&mut self, dst: Channel, msg: MessageContent) -> SourceResult<()>;

    /// Reconnects to the source
    fn reconnect(&mut self) -> SourceResult<()>;
}

} // verus!
