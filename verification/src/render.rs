//! From a byte stream, or from the events a tokenizer made of it, to HTML.

use vstd::prelude::*;

use crate::error::RenderError;
use crate::event::{Event, EventView};
use crate::html::{html, renderable};
use crate::log::{Log, LogView};
use crate::tokenizer::{tokenize, vte_events};

verus! {

/// The HTML that a stream of events comes to, or why the stream is refused.
///
/// The events act on an empty buffer, first to last. The first event that
/// is refused decides the error. Where all are accepted, the buffer they
/// leave is serialized; a palette slot outside the known ranges anywhere in
/// it is refused.
pub open spec fn rendered(events: Seq<EventView>) -> Result<Seq<char>, RenderError> {
    let (log, status) = LogView::empty().run(events);
    match status {
        Err(e) => Err(e),
        Ok(_) => if forall|i: int| 0 <= i < log.visuals.len() ==> renderable(#[trigger] log.visuals[i]) {
            Ok(html(log.chars, log.visuals))
        } else {
            Err(RenderError::InvalidColorValue)
        },
    }
}

/// Whether `result` holds the text or the error that `model` holds.
pub open spec fn agrees(result: Result<String, RenderError>, model: Result<Seq<char>, RenderError>) -> bool {
    match model {
        Ok(text) => result is Ok && result->Ok_0@ == text,
        Err(e) => result == Err::<String, RenderError>(e),
    }
}

/// Renders a stream of tokenizer events as HTML.
pub fn render_events(events: &[Event]) -> (result: Result<String, RenderError>)
    ensures
        agrees(result, rendered(events.deep_view())),
{
    let mut log = Log::new();
    match log.apply_all(events) {
        Ok(_) => log.to_html(),
        Err(e) => Err(e),
    }
}

/// Renders a raw terminal output stream as HTML. The stream is cut into
/// events by the parser of the `vte` crate.
pub fn render(input: &[u8]) -> (result: Result<String, RenderError>)
    ensures
        agrees(result, rendered(vte_events(input@))),
{
    let events = tokenize(input);
    render_events(events.as_slice())
}

} // verus!
