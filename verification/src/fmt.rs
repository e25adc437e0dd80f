//! Trusted rendering helpers. The log lines of the dispatcher reuse the
//! standard `Debug` formatting; its exact output is named, not restated.

use vstd::prelude::*;
use crate::types::{Event, EventV};

verus! {

/// The standard `Debug` rendering of a list of strings, e.g. `["a", "b"]`.
pub uninterp spec fn debug_list_of(items: Seq<Seq<char>>) -> Seq<char>;

/// Relies on `format!("{:?}", _)` over `Vec<String>`: the rendering is a
/// function of the listed strings alone.
#[verifier::external_body]
pub fn render_string_list(v: &Vec<String>) -> (r: String)
    ensures
        r@ == debug_list_of(v.deep_view()),
{
    format!("{:?}", v)
}

/// The standard `Debug` rendering of an event, e.g. `UserOnline("bob")`.
pub uninterp spec fn debug_line_of(e: EventV) -> Seq<char>;

/// Relies on `format!("{:?}", _)` over `Event` (whose `Debug` impl is
/// derived): the rendering is a function of the event value alone.
#[verifier::external_body]
pub fn render_event(e: &Event) -> (r: String)
    ensures
        r@ == debug_line_of(e@),
{
    format!("{:?}", e)
}

/// Relies on `format!("{:?}", _)` over `SourceError` for the diagnostic line
/// a failed send leaves in the log; nothing is promised of the text.
#[verifier::external_body]
pub(crate) fn render_source_error(e: &crate::sources::SourceError) -> String {
    format!("{:?}", e)
}

} // verus!
