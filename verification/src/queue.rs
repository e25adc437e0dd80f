//! The shared event queue: every source and the timer thread hold a sender,
//! the dispatcher is the single consumer.

use vstd::prelude::*;
use std::sync::mpsc::{Receiver, Sender};
use crate::types::SourceEvent;

verus! {

/// Declares `std::sync::mpsc::Sender`, the producers' end of the queue;
/// opaque, only carried through.
#[verifier::external_type_specification]
#[verifier::external_body]
#[verifier::reject_recursive_types(T)]
pub struct ExSender<T>(Sender<T>);

/// Declares `std::sync::mpsc::Receiver`, the dispatcher's end of the queue;
/// opaque, read only through `recv_event`.
#[verifier::external_type_specification]
#[verifier::external_body]
#[verifier::reject_recursive_types(T)]
pub struct ExReceiver<T>(Receiver<T>);

/// Relies on `std::sync::mpsc::Receiver::recv`: blocks until some producer's
/// message arrives, or reports the queue closed (`Err`) once every sender is
/// gone. Which event arrives, and when, is the producers' doing; nothing is
/// promised of it.
#[verifier::external_body]
pub(crate) fn recv_event(rx: &Receiver<SourceEvent>) -> (r: Result<SourceEvent, ()>) {
    match rx.recv() {
        Ok(ev) => Ok(ev),
        Err(_) => Err(()),
    }
}

} // verus!
