//! What holds of the buffer, the style and the HTML whatever the input.

use vstd::prelude::*;

use crate::error::RenderError;
use crate::event::EventView;
use crate::html::{has_span, html, html_upto, piece};
use crate::log::{line_end, line_start, LogView};
use crate::style::{Color, VisualState};

verus! {

/// A write keeps every character paired with a style and the cursor inside
/// the buffer. Over an existing character it leaves the length as it is;
/// at the end it makes the buffer one longer.
pub proof fn law_write_keeps_buffer_valid(log: LogView, c: char)
    requires
        log.wf(),
    ensures
        log.write(c).wf(),
        log.write(c).chars.len() == log.write(c).visuals.len(),
        log.cursor < log.chars.len() ==> log.write(c).chars.len() == log.chars.len(),
        log.cursor == log.chars.len() ==> log.write(c).chars.len() == log.chars.len() + 1,
        log.write(c).chars[log.cursor] == c,
        log.write(c).visuals[log.cursor] == log.visual_state,
{
}

/// The start of a line lies at or before the cursor, just behind a newline
/// or at 0, with no newline between it and the cursor.
pub proof fn law_line_start(chars: Seq<char>, cursor: int)
    requires
        0 <= cursor <= chars.len(),
    ensures
        0 <= line_start(chars, cursor) <= cursor,
        line_start(chars, cursor) == 0 || chars[line_start(chars, cursor) - 1] == '\n',
        forall|j: int| line_start(chars, cursor) <= j < cursor ==> chars[j] != '\n',
    decreases cursor,
{
    if cursor > 0 && chars[cursor - 1] != '\n' {
        law_line_start(chars, cursor - 1);
    }
}

/// The end of a line lies at or behind the cursor, on a newline or at the
/// end of the buffer, with no newline between the cursor and it.
pub proof fn law_line_end(chars: Seq<char>, from: int)
    requires
        0 <= from <= chars.len(),
    ensures
        from <= line_end(chars, from) <= chars.len(),
        line_end(chars, from) == chars.len() || chars[line_end(chars, from)] == '\n',
        forall|j: int| from <= j < line_end(chars, from) ==> chars[j] != '\n',
    decreases chars.len() - from,
{
    if from < chars.len() && chars[from] != '\n' {
        law_line_end(chars, from + 1);
    }
}

/// A carriage return keeps the buffer valid and its contents as they are.
pub proof fn law_carriage_return_keeps_buffer_valid(log: LogView)
    requires
        log.wf(),
    ensures
        log.cursor_to_start_of_line().wf(),
        log.cursor_to_start_of_line().chars == log.chars,
        log.cursor_to_start_of_line().visuals == log.visuals,
{
    law_line_start(log.chars, log.cursor);
}

/// Deleting a range inside the buffer keeps the buffer valid and shortens
/// characters and styles by the length of the range.
pub proof fn law_delete_range_keeps_buffer_valid(log: LogView, from: int, to: int)
    requires
        log.wf(),
        0 <= from <= to <= log.chars.len(),
    ensures
        log.delete_range(from, to).wf(),
        log.delete_range(from, to).chars.len() == log.chars.len() - (to - from),
        log.delete_range(from, to).visuals.len() == log.visuals.len() - (to - from),
{
}

/// Erasing to the end of the line keeps the buffer valid, leaves the cursor
/// where it is and what stands before it as it is.
pub proof fn law_erase_keeps_buffer_valid(log: LogView)
    requires
        log.wf(),
    ensures
        log.delete_to_end_of_line().wf(),
        log.delete_to_end_of_line().cursor == log.cursor,
        log.delete_to_end_of_line().chars.subrange(0, log.cursor) == log.chars.subrange(
            0,
            log.cursor,
        ),
{
    law_line_end(log.chars, log.cursor);
    law_delete_range_keeps_buffer_valid(log, log.cursor, line_end(log.chars, log.cursor));
    assert(log.delete_to_end_of_line().chars.subrange(0, log.cursor) =~= log.chars.subrange(
        0,
        log.cursor,
    ));
}

/// A cursor movement is accepted exactly when its target lies in the
/// buffer; the cursor is then at the target. A movement that would leave
/// the buffer is refused, never bent to the nearest valid position.
pub proof fn law_cursor_motion_never_clamps(log: LogView, distance: u16)
    requires
        log.wf(),
    ensures
        log.cursor + distance <= log.chars.len() ==> log.cursor_forward(seq![seq![distance]])
            == Ok::<LogView, RenderError>(log.offset_cursor(distance as int))
            && log.offset_cursor(distance as int).cursor == log.cursor + distance,
        log.cursor + distance > log.chars.len() ==> log.cursor_forward(seq![seq![distance]])
            == Err::<LogView, RenderError>(RenderError::CursorOutOfRange),
{
}

/// Whatever the event, an accepted step leaves every character paired with
/// a style and the cursor inside the buffer.
pub proof fn law_step_keeps_buffer_valid(log: LogView, event: EventView)
    requires
        log.wf(),
    ensures
        log.step(event) matches Ok(next) ==> next.wf(),
{
    law_write_keeps_buffer_valid(log, '\n');
    law_carriage_return_keeps_buffer_valid(log);
    law_erase_keeps_buffer_valid(log);
    match event {
        EventView::Print(c) => {
            law_write_keeps_buffer_valid(log, c);
        },
        _ => {},
    }
}

/// Whatever the events, the buffer that a run reaches has every character
/// paired with a style and the cursor inside the buffer, whether the run
/// came to its end or stopped on a refusal.
pub proof fn law_run_keeps_buffer_valid(log: LogView, events: Seq<EventView>)
    requires
        log.wf(),
    ensures
        log.run(events).0.wf(),
        log.run(events).0.chars.len() == log.run(events).0.visuals.len(),
        0 <= log.run(events).0.cursor <= log.run(events).0.chars.len(),
    decreases events.len(),
{
    if events.len() > 0 {
        law_run_keeps_buffer_valid(log, events.drop_last());
        law_step_keeps_buffer_valid(log.run(events.drop_last()).0, events.last());
    }
}

/// Whether `code` selects a foreground colour.
pub open spec fn is_fg_code(code: u16) -> bool {
    30 <= code <= 37 || 90 <= code <= 97
}

/// Whether `code` selects a background colour.
pub open spec fn is_bg_code(code: u16) -> bool {
    40 <= code <= 47 || 100 <= code <= 107
}

/// A code other than the reset touches at most one channel: an intensity
/// code leaves both colours, a foreground code leaves intensity and
/// background, a background code leaves intensity and foreground.
pub proof fn law_channels_are_independent(style: VisualState, code: u16)
    requires
        code != 0,
    ensures
        !(code == 1 || code == 22) ==> style.sgr(code).intensity == style.intensity,
        !(is_fg_code(code) || code == 39) ==> style.sgr(code).fg == style.fg,
        !(is_bg_code(code) || code == 49) ==> style.sgr(code).bg == style.bg,
{
}

/// Setting a foreground, then a background, then clearing the foreground
/// leaves the background that was set, no foreground, and the intensity
/// as it was.
pub proof fn law_clearing_foreground_keeps_background(style: VisualState, fg: u16, bg: u16)
    requires
        is_fg_code(fg),
        is_bg_code(bg),
    ensures
        style.sgr(fg).sgr(bg).sgr(39).bg == Some(Color::N(bg as i64)),
        style.sgr(fg).sgr(bg).sgr(39).fg == None::<Color>,
        style.sgr(fg).sgr(bg).sgr(39).intensity == style.intensity,
{
}

/// Within one channel the last code wins.
pub proof fn law_last_code_wins(style: VisualState, first: u16, second: u16)
    ensures
        is_fg_code(first) && is_fg_code(second) ==> style.sgr(first).sgr(second).fg == Some(
            Color::N(second as i64),
        ),
        is_bg_code(first) && is_bg_code(second) ==> style.sgr(first).sgr(second).bg == Some(
            Color::N(second as i64),
        ),
        style.sgr(first).sgr(0) == VisualState::unset(),
{
}

/// A buffer in which no style has a class is serialized as its characters,
/// without any tag.
pub proof fn law_unstyled_text_is_verbatim(chars: Seq<char>, visuals: Seq<VisualState>)
    requires
        chars.len() == visuals.len(),
        forall|i: int| 0 <= i < visuals.len() ==> !has_span(#[trigger] visuals[i]),
    ensures
        html(chars, visuals) == chars,
{
    lemma_unstyled_prefix(chars, visuals, chars.len() as int);
    assert(chars.subrange(0, chars.len() as int) =~= chars);
}

/// The HTML of the first `n` positions of an unstyled buffer is its first
/// `n` characters.
proof fn lemma_unstyled_prefix(chars: Seq<char>, visuals: Seq<VisualState>, n: int)
    requires
        chars.len() == visuals.len(),
        0 <= n <= chars.len(),
        forall|i: int| 0 <= i < visuals.len() ==> !has_span(#[trigger] visuals[i]),
    ensures
        html_upto(chars, visuals, n) == chars.subrange(0, n),
    decreases n,
{
    if n > 0 {
        lemma_unstyled_prefix(chars, visuals, n - 1);
        assert(!has_span(visuals[n - 1]));
        if n > 1 {
            assert(!has_span(visuals[n - 2]));
        }
        assert(piece(chars, visuals, n - 1) =~= seq![chars[n - 1]]);
        assert(chars.subrange(0, n - 1) + seq![chars[n - 1]] =~= chars.subrange(0, n));
    } else {
        assert(chars.subrange(0, 0) =~= Seq::<char>::empty());
    }
}

} // verus!
