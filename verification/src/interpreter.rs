//! The effect of each tokenizer event on the line buffer and the style.

use vstd::prelude::*;

use crate::error::RenderError;
use crate::event::{Event, EventView};
use crate::log::{Log, LogView};
use crate::style::{Color, Intensity, VisualState};

verus! {

/// Whether `params` is one group that holds one value.
pub open spec fn single_parameter(params: Seq<Seq<u16>>) -> bool {
    params.len() == 1 && params[0].len() == 1
}

impl LogView {
    /// The buffer after a printable character arrived.
    pub open spec fn print(self, c: char) -> LogView {
        self.write(c)
    }

    /// The buffer after a control byte arrived: a line feed is written as a
    /// newline, a carriage return moves the cursor to the start of its line,
    /// any other byte changes nothing.
    pub open spec fn execute(self, byte: u8) -> LogView {
        if byte == 0x0a {
            self.write('\n')
        } else if byte == 0x0d {
            self.cursor_to_start_of_line()
        } else {
            self
        }
    }

    /// The buffer after a Select Graphic Rendition sequence: its codes are
    /// applied to the style group by group and, within a group, value by
    /// value. A sequence without any value resets the style, as code 0 does.
    pub open spec fn select_graphic_rendition(self, params: Seq<Seq<u16>>) -> LogView {
        let codes = params.flatten();
        LogView {
            visual_state: if codes.len() == 0 {
                self.visual_state.sgr(0)
            } else {
                self.visual_state.sgr_all(codes)
            },
            ..self
        }
    }

    /// The buffer after an erase-in-line sequence, or why it is refused.
    /// Only mode 0, erase from the cursor to the end of the line, is known.
    pub open spec fn erase_in_line(self, params: Seq<Seq<u16>>) -> Result<LogView, RenderError> {
        if !single_parameter(params) {
            Err(RenderError::UnexpectedParameterCount)
        } else if params[0][0] != 0 {
            Err(RenderError::UnsupportedEraseMode)
        } else {
            Ok(self.delete_to_end_of_line())
        }
    }

    /// The buffer after a cursor-forward sequence, or why it is refused.
    pub open spec fn cursor_forward(self, params: Seq<Seq<u16>>) -> Result<LogView, RenderError> {
        if !single_parameter(params) {
            Err(RenderError::UnexpectedParameterCount)
        } else if !self.can_offset_cursor(params[0][0] as int) {
            Err(RenderError::CursorOutOfRange)
        } else {
            Ok(self.offset_cursor(params[0][0] as int))
        }
    }

    /// The buffer after a control sequence with final character `action`, or
    /// why the sequence is refused. Final characters other than `m`, `K`
    /// and `C` change nothing.
    pub open spec fn csi_dispatch(self, params: Seq<Seq<u16>>, action: char) -> Result<
        LogView,
        RenderError,
    > {
        if action == 'm' {
            Ok(self.select_graphic_rendition(params))
        } else if action == 'K' {
            self.erase_in_line(params)
        } else if action == 'C' {
            self.cursor_forward(params)
        } else {
            Ok(self)
        }
    }

    /// The buffer after one event, or why the event is refused. Device
    /// control strings, operating system commands and escape sequences
    /// change nothing.
    pub open spec fn step(self, event: EventView) -> Result<LogView, RenderError> {
        match event {
            EventView::Print(c) => Ok(self.print(c)),
            EventView::Execute(byte) => Ok(self.execute(byte)),
            EventView::CsiDispatch { params, intermediates, ignore, action } => self.csi_dispatch(
                params,
                action,
            ),
            EventView::Hook { .. } => Ok(self),
            EventView::Put(_) => Ok(self),
            EventView::Unhook => Ok(self),
            EventView::OscDispatch { .. } => Ok(self),
            EventView::EscDispatch { .. } => Ok(self),
        }
    }

    /// The buffer after `events`, taken first to last, and whether all of
    /// them were accepted. Processing stops at the first event that is
    /// refused: the buffer is then the one that event met.
    pub open spec fn run(self, events: Seq<EventView>) -> (LogView, Result<(), RenderError>)
        decreases events.len(),
    {
        if events.len() == 0 {
            (self, Ok(()))
        } else {
            let (reached, status) = self.run(events.drop_last());
            match status {
                Err(e) => (reached, Err(e)),
                Ok(_) => match reached.step(events.last()) {
                    Ok(next) => (next, Ok(())),
                    Err(e) => (reached, Err(e)),
                },
            }
        }
    }
}

/// Applying a sequence of codes and then one more is applying the longer
/// sequence.
pub proof fn lemma_sgr_all_push(style: VisualState, codes: Seq<u16>, code: u16)
    ensures
        style.sgr_all(codes.push(code)) == style.sgr_all(codes).sgr(code),
{
    assert(codes.push(code).drop_last() =~= codes);
}

/// The values of a vector of groups are the values of its view.
proof fn lemma_groups_view(params: &Vec<Vec<u16>>)
    ensures
        params.deep_view().len() == params@.len(),
        forall|i: int| 0 <= i < params@.len() ==> #[trigger] params.deep_view()[i] == params@[i]@,
{
    assert forall|i: int| 0 <= i < params@.len() implies #[trigger] params.deep_view()[i]
        == params@[i]@ by {
        assert(params@[i].deep_view() =~= params@[i]@);
    }
}

impl Log {
    /// Takes a printable character: writes it at the cursor.
    pub fn print(&mut self, c: char)
        requires
            old(self).wf(),
        ensures
            final(self)@ == old(self)@.print(c),
            final(self).wf(),
    {
        self.write(c);
    }

    /// Takes a control byte: a line feed is written as a newline, a carriage
    /// return moves the cursor to the start of its line, any other byte is
    /// passed over.
    pub fn execute(&mut self, byte: u8)
        requires
            old(self).wf(),
        ensures
            final(self)@ == old(self)@.execute(byte),
            final(self).wf(),
    {
        if byte == 0x0a {
            self.write('\n');
        } else if byte == 0x0d {
            self.cursor_to_start_of_line();
        }
    }

    /// Applies one Select Graphic Rendition code to the current style. A
    /// code outside the table is passed over.
    pub fn apply_sgr_code(&mut self, code: u16)
        ensures
            final(self)@ == (LogView {
                visual_state: old(self)@.visual_state.sgr(code),
                ..old(self)@
            }),
    {
        match code {
            0 => self.visual_state = VisualState::new(),
            1 => self.set_intensity(Some(Intensity::Bold)),
            22 => self.set_intensity(None),
            30..=37 => self.set_fg(Some(Color::N(code as i64))),
            39 => self.set_fg(None),
            40..=47 => self.set_bg(Some(Color::N(code as i64))),
            49 => self.set_bg(None),
            90..=97 => self.set_fg(Some(Color::N(code as i64))),
            100..=107 => self.set_bg(Some(Color::N(code as i64))),
            _ => (),
        }
    }

    /// Applies the codes of a Select Graphic Rendition sequence in the order
    /// given. A sequence without any value resets the style.
    pub fn select_graphic_rendition(&mut self, params: &Vec<Vec<u16>>)
        ensures
            final(self)@ == old(self)@.select_graphic_rendition(params.deep_view()),
    {
        let ghost groups = params.deep_view();
        let ghost before = self@;
        let mut seen: bool = false;
        proof {
            lemma_groups_view(params);
            assert(groups.take(0) =~= Seq::<Seq<u16>>::empty());
        }
        for i in 0..params.len()
            invariant
                groups == params.deep_view(),
                groups.len() == params@.len(),
                forall|k: int| 0 <= k < params@.len() ==> #[trigger] groups[k] == params@[k]@,
                seen == (groups.take(i as int).flatten().len() > 0),
                self@ == (LogView {
                    visual_state: before.visual_state.sgr_all(groups.take(i as int).flatten()),
                    ..before
                }),
        {
            let group = &params[i];
            let ghost done = groups.take(i as int).flatten();
            proof {
                assert(done + group@.take(0) =~= done);
            }
            for j in 0..group.len()
                invariant
                    i < groups.len(),
                    group@ == groups[i as int],
                    seen == ((done + group@.take(j as int)).len() > 0),
                    self@ == (LogView {
                        visual_state: before.visual_state.sgr_all(done + group@.take(j as int)),
                        ..before
                    }),
            {
                proof {
                    lemma_sgr_all_push(before.visual_state, done + group@.take(j as int), group@[j as int]);
                    assert((done + group@.take(j as int)).push(group@[j as int]) =~= done
                        + group@.take(j + 1));
                }
                self.apply_sgr_code(group[j]);
                seen = true;
            }
            proof {
                assert(group@.take(group@.len() as int) =~= group@);
                assert(groups.take(i + 1) =~= groups.take(i as int).push(groups[i as int]));
                groups.take(i as int).lemma_flatten_push(groups[i as int]);
            }
        }
        proof {
            assert(groups.take(groups.len() as int) =~= groups);
        }
        if !seen {
            self.visual_state = VisualState::new();
        }
    }

    /// Takes a control sequence with final character `c`.
    ///
    /// `m` changes the style. `K` erases from the cursor to the end of the
    /// line and `C` moves the cursor forward; both want exactly one
    /// parameter, and on a refusal the buffer stays as it was. Any other
    /// final character is passed over.
    pub fn csi_dispatch(
        &mut self,
        params: &Vec<Vec<u16>>,
        _intermediates: &[u8],
        _ignore: bool,
        c: char,
    ) -> (result: Result<(), RenderError>)
        requires
            old(self).wf(),
        ensures
            final(self).wf(),
            match old(self)@.csi_dispatch(params.deep_view(), c) {
                Ok(next) => result == Ok::<(), RenderError>(()) && final(self)@ == next,
                Err(e) => result == Err::<(), RenderError>(e) && final(self)@ == old(self)@,
            },
    {
        proof {
            lemma_groups_view(params);
        }
        match c {
            'm' => {
                self.select_graphic_rendition(params);
                Ok(())
            },
            'K' => {
                if params.len() != 1 || params[0].len() != 1 {
                    return Err(RenderError::UnexpectedParameterCount);
                }
                if params[0][0] != 0 {
                    return Err(RenderError::UnsupportedEraseMode);
                }
                self.delete_to_end_of_line();
                Ok(())
            },
            'C' => {
                if params.len() != 1 || params[0].len() != 1 {
                    return Err(RenderError::UnexpectedParameterCount);
                }
                self.offset_cursor(params[0][0] as i64)
            },
            _ => Ok(()),
        }
    }

    /// Takes one event. On a refusal the buffer stays as it was.
    pub fn apply(&mut self, event: &Event) -> (result: Result<(), RenderError>)
        requires
            old(self).wf(),
        ensures
            final(self).wf(),
            match old(self)@.step(event@) {
                Ok(next) => result == Ok::<(), RenderError>(()) && final(self)@ == next,
                Err(e) => result == Err::<(), RenderError>(e) && final(self)@ == old(self)@,
            },
    {
        match event {
            Event::Print(c) => {
                self.print(*c);
                Ok(())
            },
            Event::Execute(byte) => {
                self.execute(*byte);
                Ok(())
            },
            Event::CsiDispatch { params, intermediates, ignore, action } => self.csi_dispatch(
                params,
                intermediates.as_slice(),
                *ignore,
                *action,
            ),
            Event::Hook { .. } => Ok(()),
            Event::Put(_) => Ok(()),
            Event::Unhook => Ok(()),
            Event::OscDispatch { .. } => Ok(()),
            Event::EscDispatch { .. } => Ok(()),
        }
    }

    /// Takes `events` first to last and stops at the first that is refused.
    /// The buffer is then the one that event met.
    pub fn apply_all(&mut self, events: &[Event]) -> (result: Result<(), RenderError>)
        requires
            old(self).wf(),
        ensures
            final(self).wf(),
            (final(self)@, result) == old(self)@.run(events.deep_view()),
    {
        let ghost all = events.deep_view();
        let ghost before = self@;
        proof {
            assert(all.take(0) =~= Seq::<EventView>::empty());
        }
        for i in 0..events.len()
            invariant
                self.wf(),
                before == old(self)@,
                all == events.deep_view(),
                (self@, Ok::<(), RenderError>(())) == before.run(all.take(i as int)),
        {
            proof {
                assert(all.take(i + 1).drop_last() =~= all.take(i as int));
                assert(all.take(i + 1).last() == events@[i as int]@);
            }
            match self.apply(&events[i]) {
                Ok(_) => {},
                Err(e) => {
                    proof {
                        assert(before.run(all.take(i + 1)) == (self@, Err::<(), RenderError>(e)));
                        lemma_run_stops(before, all, i + 1);
                    }
                    return Err(e);
                },
            }
        }
        proof {
            assert(all.take(all.len() as int) =~= all);
        }
        Ok(())
    }
}

/// Once a run has stopped on a refused event, the events behind it change
/// neither the buffer nor the refusal.
pub proof fn lemma_run_stops(start: LogView, events: Seq<EventView>, n: int)
    requires
        0 <= n <= events.len(),
        start.run(events.take(n)).1 is Err,
    ensures
        start.run(events) == start.run(events.take(n)),
    decreases events.len(),
{
    if n < events.len() {
        assert(events.drop_last().take(n) =~= events.take(n));
        lemma_run_stops(start, events.drop_last(), n);
    } else {
        assert(events.take(n) =~= events);
    }
}

} // verus!
