//! The line buffer: characters, the style each was written with, and a cursor.

use vstd::prelude::*;

use crate::error::RenderError;
use crate::style::{Color, Intensity, VisualState};

verus! {

/// The mathematical content of a [`Log`].
pub struct LogView {
    /// Index at which the next character is written.
    pub cursor: int,
    /// The characters of the buffer, newlines included.
    pub chars: Seq<char>,
    /// For each character, the style that was current when it was written.
    pub visuals: Seq<VisualState>,
    /// The style that the next write will capture.
    pub visual_state: VisualState,
}

/// Start of the line that holds position `cursor`: the position just after
/// the nearest newline before `cursor`, or 0 if there is none.
pub open spec fn line_start(chars: Seq<char>, cursor: int) -> int
    decreases cursor,
{
    if cursor <= 0 {
        0
    } else if chars[cursor - 1] == '\n' {
        cursor
    } else {
        line_start(chars, cursor - 1)
    }
}

/// End of the line that holds position `from`: the position of the first
/// newline at or after `from`, or the length of `chars` if there is none.
pub open spec fn line_end(chars: Seq<char>, from: int) -> int
    decreases chars.len() - from,
{
    if from >= chars.len() {
        chars.len() as int
    } else if chars[from] == '\n' {
        from
    } else {
        line_end(chars, from + 1)
    }
}

/// `s` without its elements at positions `from` up to, not including, `to`.
pub open spec fn without_range<T>(s: Seq<T>, from: int, to: int) -> Seq<T> {
    s.subrange(0, from) + s.subrange(to, s.len() as int)
}

impl LogView {
    /// The empty buffer with the cursor at 0 and no style set.
    pub open spec fn empty() -> LogView {
        LogView {
            cursor: 0,
            chars: Seq::empty(),
            visuals: Seq::empty(),
            visual_state: VisualState::unset(),
        }
    }

    /// Every character has a style, and the cursor is inside the buffer or
    /// just behind its last character.
    pub open spec fn wf(self) -> bool {
        &&& self.chars.len() == self.visuals.len()
        &&& 0 <= self.cursor <= self.chars.len()
    }

    /// The buffer after `c` is written at the cursor: over the character
    /// there, or behind the last one, with the current style, and the cursor
    /// one further.
    pub open spec fn write(self, c: char) -> LogView {
        if self.cursor < self.chars.len() {
            LogView {
                cursor: self.cursor + 1,
                chars: self.chars.update(self.cursor, c),
                visuals: self.visuals.update(self.cursor, self.visual_state),
                ..self
            }
        } else {
            LogView {
                cursor: self.cursor + 1,
                chars: self.chars.push(c),
                visuals: self.visuals.push(self.visual_state),
                ..self
            }
        }
    }

    /// Whether the cursor moved by `offset` stays in the buffer.
    pub open spec fn can_offset_cursor(self, offset: int) -> bool {
        0 <= self.cursor + offset <= self.chars.len()
    }

    /// The buffer with the cursor moved by `offset`.
    pub open spec fn offset_cursor(self, offset: int) -> LogView {
        LogView { cursor: self.cursor + offset, ..self }
    }

    /// The buffer with the cursor at the start of its line.
    pub open spec fn cursor_to_start_of_line(self) -> LogView {
        LogView { cursor: line_start(self.chars, self.cursor), ..self }
    }

    /// The buffer without positions `from` up to `to`; a cursor left behind
    /// the end is moved to the end.
    pub open spec fn delete_range(self, from: int, to: int) -> LogView {
        let chars = without_range(self.chars, from, to);
        LogView {
            cursor: if self.cursor > chars.len() { chars.len() as int } else { self.cursor },
            chars,
            visuals: without_range(self.visuals, from, to),
            ..self
        }
    }

    /// The buffer without what stands between the cursor and the end of its
    /// line; the newline that ends the line stays.
    pub open spec fn delete_to_end_of_line(self) -> LogView {
        self.delete_range(self.cursor, line_end(self.chars, self.cursor))
    }
}

/// A line buffer with a cursor and the style for the next write.
///
/// The buffer is one sequence of characters; a newline is a character like
/// any other. The cursor is an index into it: at the length it appends,
/// below the length it overwrites.
pub struct Log {
    pub(crate) cursor: usize,
    pub(crate) chars: Vec<char>,
    pub(crate) visuals: Vec<VisualState>,
    pub(crate) visual_state: VisualState,
}

impl View for Log {
    type V = LogView;

    open(crate) spec fn view(&self) -> LogView {
        LogView {
            cursor: self.cursor as int,
            chars: self.chars@,
            visuals: self.visuals@,
            visual_state: self.visual_state,
        }
    }
}

/// Removes positions `from` up to `to` from `v`.
fn remove_range<T>(v: &mut Vec<T>, from: usize, to: usize)
    requires
        from <= to <= old(v)@.len(),
    ensures
        final(v)@ == without_range(old(v)@, from as int, to as int),
{
    let mut tail = v.split_off(to);
    v.truncate(from);
    v.append(&mut tail);
}

impl Log {
    /// Every character has a style, and the cursor is inside the buffer or
    /// just behind its last character.
    pub open spec fn wf(&self) -> bool {
        self@.wf()
    }

    /// An empty buffer, cursor at 0, no style set.
    pub fn new() -> (log: Log)
        ensures
            log@ == LogView::empty(),
            log.wf(),
    {
        Log { cursor: 0, chars: Vec::new(), visuals: Vec::new(), visual_state: VisualState::new() }
    }

    /// Writes `c` at the cursor, over the character there or behind the last
    /// one, with the current style, and moves the cursor one further.
    pub fn write(&mut self, c: char)
        requires
            old(self).wf(),
        ensures
            final(self)@ == old(self)@.write(c),
            final(self).wf(),
    {
        if self.chars.len() > self.cursor {
            self.chars[self.cursor] = c;
            self.visuals[self.cursor] = self.visual_state;
        } else {
            self.chars.push(c);
            self.visuals.push(self.visual_state);
        }
        assert(self.cursor < self.chars.len());
        self.cursor = self.cursor + 1;
    }

    /// Moves the cursor by `offset`, or fails and changes nothing if that
    /// would put it before 0 or behind the end of the buffer.
    pub fn offset_cursor(&mut self, offset: i64) -> (result: Result<(), RenderError>)
        requires
            old(self).wf(),
        ensures
            final(self).wf(),
            old(self)@.can_offset_cursor(offset as int) ==> result == Ok::<(), RenderError>(())
                && final(self)@ == old(self)@.offset_cursor(offset as int),
            !old(self)@.can_offset_cursor(offset as int) ==> result == Err::<(), RenderError>(
                RenderError::CursorOutOfRange,
            ) && final(self)@ == old(self)@,
    {
        let target: i128 = self.cursor as i128 + offset as i128;
        if target < 0 || target > self.chars.len() as i128 {
            return Err(RenderError::CursorOutOfRange);
        }
        self.cursor = target as usize;
        Ok(())
    }

    /// Moves the cursor to the start of its line: just behind the nearest
    /// newline before it, or to 0. The buffer's contents stay.
    pub fn cursor_to_start_of_line(&mut self)
        requires
            old(self).wf(),
        ensures
            final(self)@ == old(self)@.cursor_to_start_of_line(),
            final(self).wf(),
    {
        let mut i: usize = self.cursor;
        while i > 0 && self.chars[i - 1] != '\n'
            invariant
                i <= self.cursor <= self.chars@.len(),
                line_start(self.chars@, i as int) == line_start(self.chars@, self.cursor as int),
            decreases i,
        {
            i = i - 1;
        }
        self.cursor = i;
    }

    /// Removes what stands between the cursor and the end of its line. The
    /// newline that ends the line stays, and so does the cursor.
    pub fn delete_to_end_of_line(&mut self)
        requires
            old(self).wf(),
        ensures
            final(self)@ == old(self)@.delete_to_end_of_line(),
            final(self).wf(),
    {
        let mut i: usize = self.cursor;
        while i < self.chars.len() && self.chars[i] != '\n'
            invariant
                self.cursor <= i <= self.chars@.len(),
                line_end(self.chars@, i as int) == line_end(self.chars@, self.cursor as int),
            decreases self.chars@.len() - i,
        {
            i = i + 1;
        }
        let from: usize = self.cursor;
        self.delete_range(from, i);
    }

    /// Removes positions `from` up to, not including, `to`, with their
    /// styles. A cursor that is then behind the end moves to the end.
    pub fn delete_range(&mut self, from: usize, to: usize)
        requires
            old(self).wf(),
            from <= to <= old(self)@.chars.len(),
        ensures
            final(self)@ == old(self)@.delete_range(from as int, to as int),
            final(self).wf(),
    {
        remove_range(&mut self.chars, from, to);
        remove_range(&mut self.visuals, from, to);
        if self.cursor > self.chars.len() {
            self.cursor = self.chars.len();
        }
    }

    /// Sets or clears the intensity for the writes that follow.
    pub fn set_intensity(&mut self, intensity: Option<Intensity>)
        ensures
            final(self)@ == (LogView {
                visual_state: old(self)@.visual_state.with_intensity(intensity),
                ..old(self)@
            }),
    {
        self.visual_state = VisualState { intensity: intensity, ..self.visual_state }
    }

    /// Sets or clears the foreground colour for the writes that follow.
    pub fn set_fg(&mut self, fg: Option<Color>)
        ensures
            final(self)@ == (LogView {
                visual_state: old(self)@.visual_state.with_fg(fg),
                ..old(self)@
            }),
    {
        self.visual_state = VisualState { fg: fg, ..self.visual_state }
    }

    /// Sets or clears the background colour for the writes that follow.
    pub fn set_bg(&mut self, bg: Option<Color>)
        ensures
            final(self)@ == (LogView {
                visual_state: old(self)@.visual_state.with_bg(bg),
                ..old(self)@
            }),
    {
        self.visual_state = VisualState { bg: bg, ..self.visual_state }
    }

    /// The index at which the next character is written.
    pub fn cursor(&self) -> (cursor: usize)
        ensures
            cursor == self@.cursor,
    {
        self.cursor
    }

    /// The characters of the buffer.
    pub fn chars(&self) -> (chars: &Vec<char>)
        ensures
            chars@ == self@.chars,
    {
        &self.chars
    }

    /// The style of each character of the buffer.
    pub fn visuals(&self) -> (visuals: &Vec<VisualState>)
        ensures
            visuals@ == self@.visuals,
    {
        &self.visuals
    }

    /// The style that the next write will capture.
    pub fn visual_state(&self) -> (visual_state: VisualState)
        ensures
            visual_state == self@.visual_state,
    {
        self.visual_state
    }
}

} // verus!
