//! The contract every event handler ("module") implements.

use vstd::prelude::*;
use crate::dispatcher::CoreAPI;
use crate::logger::LogSink;
use crate::sources::EventSource;
use crate::types::SourceEvent;

verus! {

/// A handler's answer: whether this event keeps propagating to the
/// lower-priority subscribers behind it.
#[derive(Clone, Copy, Debug, PartialEq, Eq, Structural)]
pub enum ResumeEventHandling {
    Stop,
    Resume,
}

/// Trait representing an event handler. A module may act back on the core
/// through the mediator it is handed — send messages, schedule timers — but
/// the set of configured sources is not its to change: every implementation
/// leaves the source registry as it found it.
pub trait Module<S: EventSource, L: LogSink> {
    fn handle_event(&mut self, core: &mut CoreAPI<S, L>, event: SourceEvent) -> (r:
        ResumeEventHandling)
        ensures
            final(core).source_ids() == old(core).source_ids(),
    ;
}

} // verus!
