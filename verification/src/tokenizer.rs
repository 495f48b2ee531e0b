//! The tokenizer of the escape grammar: the parser of the `vte` crate, with
//! its reports recorded as [`Event`]s.

use vstd::prelude::*;
use vstd::slice::slice_to_vec;

use crate::event::{Event, EventView};

verus! {

/// The parameter list that `vte` hands to a performer.
#[verifier::external_type_specification]
#[verifier::external_body]
pub struct ExParams(vte::Params);

/// The groups that a parameter list of `vte` holds, in order: each is one
/// parameter followed by its sub-parameters.
pub uninterp spec fn params_contents(params: vte::Params) -> Seq<Seq<u16>>;

/// What a new `vte::Parser` reports, in order, while it is fed `input` byte
/// by byte.
pub uninterp spec fn vte_events(input: Seq<u8>) -> Seq<EventView>;

/// `vte::Params::iter`: walks the groups of a parameter list in order. Each
/// group is copied out as it is.
#[verifier::external_body]
fn param_groups(params: &vte::Params) -> (groups: Vec<Vec<u16>>)
    ensures
        groups.deep_view() == params_contents(*params),
{
    params.iter().map(|group| group.to_vec()).collect()
}

/// Copies the parameters of an operating system command.
fn osc_params(params: &[&[u8]]) -> (copy: Vec<Vec<u8>>)
    ensures
        copy@.len() == params@.len(),
        forall|i: int| 0 <= i < params@.len() ==> (#[trigger] copy@[i])@ == params@[i]@,
{
    let mut copy: Vec<Vec<u8>> = Vec::new();
    for i in 0..params.len()
        invariant
            copy@.len() == i,
            forall|k: int| 0 <= k < i ==> (#[trigger] copy@[k])@ == params@[k]@,
    {
        copy.push(slice_to_vec(params[i]));
    }
    copy
}

/// A performer that records every report of the parser, in order.
pub struct EventSink {
    events: Vec<Event>,
}

impl EventSink {
    /// What the sink has recorded so far.
    pub closed spec fn recorded(&self) -> Seq<EventView> {
        self.events.deep_view()
    }

    /// A sink that has recorded nothing.
    pub fn new() -> (sink: EventSink)
        ensures
            sink.recorded() == Seq::<EventView>::empty(),
    {
        let sink = EventSink { events: Vec::new() };
        assert(sink.events.deep_view() =~= Seq::<EventView>::empty());
        sink
    }

    /// Records one event behind those recorded before.
    fn record(&mut self, event: Event)
        ensures
            final(self).recorded() == old(self).recorded().push(event@),
    {
        self.events.push(event);
        assert(self.events.deep_view() =~= old(self).events.deep_view().push(event@));
    }

    /// Hands out what was recorded.
    pub fn into_events(self) -> (events: Vec<Event>)
        ensures
            events.deep_view() == self.recorded(),
    {
        self.events
    }
}

impl vte::Perform for EventSink {
    fn print(&mut self, c: char)
        ensures
            final(self).recorded() == old(self).recorded().push(EventView::Print(c)),
    {
        self.record(Event::Print(c));
    }

    fn execute(&mut self, byte: u8)
        ensures
            final(self).recorded() == old(self).recorded().push(EventView::Execute(byte)),
    {
        self.record(Event::Execute(byte));
    }

    fn hook(&mut self, params: &vte::Params, intermediates: &[u8], ignore: bool, action: char)
        ensures
            final(self).recorded() == old(self).recorded().push(
                EventView::Hook {
                    params: params_contents(*params),
                    intermediates: intermediates@,
                    ignore,
                    action,
                },
            ),
    {
        self.record(
            Event::Hook {
                params: param_groups(params),
                intermediates: slice_to_vec(intermediates),
                ignore,
                action,
            },
        );
    }

    fn put(&mut self, byte: u8)
        ensures
            final(self).recorded() == old(self).recorded().push(EventView::Put(byte)),
    {
        self.record(Event::Put(byte));
    }

    fn unhook(&mut self)
        ensures
            final(self).recorded() == old(self).recorded().push(EventView::Unhook),
    {
        self.record(Event::Unhook);
    }

    fn osc_dispatch(&mut self, params: &[&[u8]], bell_terminated: bool)
        ensures
            final(self).recorded() == old(self).recorded().push(
                EventView::OscDispatch {
                    params: Seq::new(params@.len(), |i: int| params@[i]@),
                    bell_terminated,
                },
            ),
    {
        let copy = osc_params(params);
        assert(copy.deep_view() =~= Seq::new(params@.len(), |i: int| params@[i]@)) by {
            assert forall|i: int| 0 <= i < params@.len() implies #[trigger] copy.deep_view()[i]
                == params@[i]@ by {
                assert(copy@[i].deep_view() =~= copy@[i]@);
            }
        }
        self.record(Event::OscDispatch { params: copy, bell_terminated });
    }

    fn csi_dispatch(
        &mut self,
        params: &vte::Params,
        intermediates: &[u8],
        ignore: bool,
        action: char,
    )
        ensures
            final(self).recorded() == old(self).recorded().push(
                EventView::CsiDispatch {
                    params: params_contents(*params),
                    intermediates: intermediates@,
                    ignore,
                    action,
                },
            ),
    {
        self.record(
            Event::CsiDispatch {
                params: param_groups(params),
                intermediates: slice_to_vec(intermediates),
                ignore,
                action,
            },
        );
    }

    fn esc_dispatch(&mut self, intermediates: &[u8], ignore: bool, byte: u8)
        ensures
            final(self).recorded() == old(self).recorded().push(
                EventView::EscDispatch { intermediates: intermediates@, ignore, byte },
            ),
    {
        self.record(Event::EscDispatch { intermediates: slice_to_vec(intermediates), ignore, byte });
    }
}

/// `vte::Parser::advance`, on a parser made by `vte::Parser::new`: feeds it
/// `input` byte by byte, with an [`EventSink`] as performer, and returns
/// what the sink recorded.
#[verifier::external_body]
pub(crate) fn tokenize(input: &[u8]) -> (events: Vec<Event>)
    ensures
        events.deep_view() == vte_events(input@),
{
    let mut parser = vte::Parser::new();
    let mut sink = EventSink::new();
    for byte in input {
        parser.advance(&mut sink, *byte);
    }
    sink.into_events()
}

} // verus!
