//! What the tokenizer of the escape grammar reports, as one closed type.

use vstd::prelude::*;

verus! {

/// One report of the tokenizer.
///
/// Parameters come in groups: a group is one parameter together with its
/// sub-parameters, in the order they were written.
#[allow(inconsistent_fields)]
#[derive(Clone, Debug, PartialEq, Eq)]
pub enum Event {
    /// A character to draw.
    Print(char),
    /// A C0 or C1 control byte.
    Execute(u8),
    /// The final character of the first part of a device control string.
    Hook { params: Vec<Vec<u16>>, intermediates: Vec<u8>, ignore: bool, action: char },
    /// A byte of a device control string.
    Put(u8),
    /// The end of a device control string.
    Unhook,
    /// An operating system command.
    OscDispatch { params: Vec<Vec<u8>>, bell_terminated: bool },
    /// The final character of a control sequence.
    CsiDispatch { params: Vec<Vec<u16>>, intermediates: Vec<u8>, ignore: bool, action: char },
    /// The final character of an escape sequence.
    EscDispatch { intermediates: Vec<u8>, ignore: bool, byte: u8 },
}

/// The mathematical content of an [`Event`].
#[allow(inconsistent_fields)]
pub enum EventView {
    Print(char),
    Execute(u8),
    Hook { params: Seq<Seq<u16>>, intermediates: Seq<u8>, ignore: bool, action: char },
    Put(u8),
    Unhook,
    OscDispatch { params: Seq<Seq<u8>>, bell_terminated: bool },
    CsiDispatch { params: Seq<Seq<u16>>, intermediates: Seq<u8>, ignore: bool, action: char },
    EscDispatch { intermediates: Seq<u8>, ignore: bool, byte: u8 },
}

impl DeepView for Event {
    type V = EventView;

    open spec fn deep_view(&self) -> EventView {
        match *self {
            Event::Print(c) => EventView::Print(c),
            Event::Execute(byte) => EventView::Execute(byte),
            Event::Hook { params, intermediates, ignore, action } => EventView::Hook {
                params: params.deep_view(),
                intermediates: intermediates@,
                ignore,
                action,
            },
            Event::Put(byte) => EventView::Put(byte),
            Event::Unhook => EventView::Unhook,
            Event::OscDispatch { params, bell_terminated } => EventView::OscDispatch {
                params: params.deep_view(),
                bell_terminated,
            },
            Event::CsiDispatch { params, intermediates, ignore, action } => EventView::CsiDispatch {
                params: params.deep_view(),
                intermediates: intermediates@,
                ignore,
                action,
            },
            Event::EscDispatch { intermediates, ignore, byte } => EventView::EscDispatch {
                intermediates: intermediates@,
                ignore,
                byte,
            },
        }
    }
}

impl View for Event {
    type V = EventView;

    open spec fn view(&self) -> EventView {
        self.deep_view()
    }
}

} // verus!
