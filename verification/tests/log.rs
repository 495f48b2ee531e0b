use ansi_html::{Color, Intensity, Log, RenderError, VisualState};

fn filled(text: &str) -> Log {
    let mut log = Log::new();
    for c in text.chars() {
        log.write(c);
    }
    log
}

fn text(log: &Log) -> String {
    log.chars().iter().collect()
}

#[test]
fn new_state_is_unset() {
    let state = VisualState::new();
    assert_eq!(state.intensity, None);
    assert_eq!(state.fg, None);
    assert_eq!(state.bg, None);
}

#[test]
fn new_log_is_empty() {
    let log = Log::new();
    assert_eq!(log.cursor(), 0);
    assert!(log.chars().is_empty());
    assert!(log.visuals().is_empty());
    assert_eq!(log.visual_state(), VisualState::new());
}

#[test]
fn write_appends_at_the_end() {
    let log = filled("ab");
    assert_eq!(text(&log), "ab");
    assert_eq!(log.cursor(), 2);
    assert_eq!(log.chars().len(), log.visuals().len());
}

#[test]
fn write_overwrites_below_the_end() {
    let mut log = filled("abc");
    log.cursor_to_start_of_line();
    log.set_intensity(Some(Intensity::Bold));
    log.write('X');
    assert_eq!(text(&log), "Xbc");
    assert_eq!(log.cursor(), 1);
    assert_eq!(log.chars().len(), 3);
    assert_eq!(log.visuals().len(), 3);
    assert_eq!(log.visuals()[0].intensity, Some(Intensity::Bold));
    assert_eq!(log.visuals()[1], VisualState::new());
}

#[test]
fn lengths_agree_after_every_operation() {
    let mut log = Log::new();
    for (i, c) in "ab\ncd\nef".chars().enumerate() {
        log.write(c);
        assert_eq!(log.chars().len(), log.visuals().len());
        assert!(log.cursor() <= log.chars().len());
        if i % 3 == 2 {
            log.cursor_to_start_of_line();
            assert_eq!(log.chars().len(), log.visuals().len());
            assert!(log.cursor() <= log.chars().len());
        }
    }
    log.delete_to_end_of_line();
    assert_eq!(log.chars().len(), log.visuals().len());
    assert!(log.cursor() <= log.chars().len());
    log.delete_range(0, 2);
    assert_eq!(log.chars().len(), log.visuals().len());
    assert!(log.cursor() <= log.chars().len());
}

#[test]
fn offset_cursor_moves_inside_the_buffer() {
    let mut log = filled("abcd");
    assert_eq!(log.offset_cursor(-3), Ok(()));
    assert_eq!(log.cursor(), 1);
    assert_eq!(log.offset_cursor(2), Ok(()));
    assert_eq!(log.cursor(), 3);
    assert_eq!(log.offset_cursor(1), Ok(()));
    assert_eq!(log.cursor(), 4);
    assert_eq!(log.offset_cursor(0), Ok(()));
    assert_eq!(log.cursor(), 4);
}

#[test]
fn offset_cursor_refuses_to_leave_the_buffer() {
    let mut log = filled("ab");
    assert_eq!(log.offset_cursor(5), Err(RenderError::CursorOutOfRange));
    assert_eq!(log.cursor(), 2);
    assert_eq!(log.offset_cursor(1), Err(RenderError::CursorOutOfRange));
    assert_eq!(log.cursor(), 2);
    assert_eq!(log.offset_cursor(-3), Err(RenderError::CursorOutOfRange));
    assert_eq!(log.cursor(), 2);
    assert_eq!(log.offset_cursor(i64::MAX), Err(RenderError::CursorOutOfRange));
    assert_eq!(log.offset_cursor(i64::MIN), Err(RenderError::CursorOutOfRange));
    assert_eq!(log.cursor(), 2);
    assert_eq!(text(&log), "ab");
}

#[test]
fn cursor_to_start_of_line_finds_the_newline_before() {
    let mut log = filled("ab\ncd");
    log.cursor_to_start_of_line();
    assert_eq!(log.cursor(), 3);
    log.cursor_to_start_of_line();
    assert_eq!(log.cursor(), 3);
    assert_eq!(text(&log), "ab\ncd");
}

#[test]
fn cursor_to_start_of_line_without_newline_goes_to_zero() {
    let mut log = filled("abc");
    log.cursor_to_start_of_line();
    assert_eq!(log.cursor(), 0);
    log.cursor_to_start_of_line();
    assert_eq!(log.cursor(), 0);
}

#[test]
fn cursor_just_behind_a_newline_stays() {
    let mut log = filled("ab\n");
    log.cursor_to_start_of_line();
    assert_eq!(log.cursor(), 3);
}

#[test]
fn delete_to_end_of_line_stops_before_the_newline() {
    let mut log = filled("abc\ndef");
    assert_eq!(log.offset_cursor(-6), Ok(()));
    log.delete_to_end_of_line();
    assert_eq!(text(&log), "a\ndef");
    assert_eq!(log.cursor(), 1);
    assert_eq!(log.visuals().len(), 5);
}

#[test]
fn delete_to_end_of_line_without_newline_deletes_the_rest() {
    let mut log = filled("abcdef");
    assert_eq!(log.offset_cursor(-4), Ok(()));
    log.delete_to_end_of_line();
    assert_eq!(text(&log), "ab");
    assert_eq!(log.cursor(), 2);
}

#[test]
fn delete_to_end_of_line_at_the_end_changes_nothing() {
    let mut log = filled("abc");
    log.delete_to_end_of_line();
    assert_eq!(text(&log), "abc");
    assert_eq!(log.cursor(), 3);
}

#[test]
fn delete_range_removes_chars_and_styles_together() {
    let mut log = Log::new();
    log.write('a');
    log.set_fg(Some(Color::N(31)));
    log.write('b');
    log.set_fg(Some(Color::N(32)));
    log.write('c');
    log.set_fg(None);
    log.write('d');
    log.delete_range(1, 2);
    assert_eq!(text(&log), "acd");
    assert_eq!(log.visuals().len(), 3);
    assert_eq!(log.visuals()[1].fg, Some(Color::N(32)));
    assert_eq!(log.cursor(), 3);
}

#[test]
fn delete_range_keeps_a_cursor_inside() {
    let mut log = filled("abcdef");
    assert_eq!(log.offset_cursor(-5), Ok(()));
    log.delete_range(3, 6);
    assert_eq!(text(&log), "abc");
    assert_eq!(log.cursor(), 1);
}

#[test]
fn delete_range_of_nothing_changes_nothing() {
    let mut log = filled("abc");
    log.delete_range(1, 1);
    assert_eq!(text(&log), "abc");
    assert_eq!(log.cursor(), 3);
    log.delete_range(0, 3);
    assert_eq!(text(&log), "");
    assert_eq!(log.cursor(), 0);
}

#[test]
fn setters_touch_one_channel() {
    let mut log = Log::new();
    log.set_fg(Some(Color::N(31)));
    log.set_bg(Some(Color::N(44)));
    log.set_intensity(Some(Intensity::Faint));
    log.set_fg(None);
    let state = log.visual_state();
    assert_eq!(state.fg, None);
    assert_eq!(state.bg, Some(Color::N(44)));
    assert_eq!(state.intensity, Some(Intensity::Faint));
    log.set_bg(None);
    assert_eq!(log.visual_state().intensity, Some(Intensity::Faint));
    log.set_intensity(None);
    assert_eq!(log.visual_state(), VisualState::new());
}

#[test]
fn written_style_is_a_snapshot() {
    let mut log = Log::new();
    log.set_fg(Some(Color::N(31)));
    log.write('a');
    log.set_fg(Some(Color::N(32)));
    assert_eq!(log.visuals()[0].fg, Some(Color::N(31)));
}
