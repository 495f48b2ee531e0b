use ansi_html::html::{open_span, span_classes};
use ansi_html::{Color, Event, Intensity, Log, RenderError, VisualState};

fn text(log: &Log) -> String {
    log.chars().iter().collect()
}

#[test]
fn print_writes_the_character() {
    let mut log = Log::new();
    log.print('a');
    log.print('\u{e9}');
    assert_eq!(text(&log), "a\u{e9}");
    assert_eq!(log.cursor(), 2);
}

#[test]
fn execute_line_feed_and_carriage_return() {
    let mut log = Log::new();
    log.print('a');
    log.execute(0x0a);
    log.print('b');
    assert_eq!(text(&log), "a\nb");
    log.execute(0x0d);
    assert_eq!(log.cursor(), 2);
    log.execute(0x07);
    log.execute(0x00);
    assert_eq!(text(&log), "a\nb");
    assert_eq!(log.cursor(), 2);
}

#[test]
fn sgr_code_table() {
    let mut log = Log::new();
    log.apply_sgr_code(1);
    assert_eq!(log.visual_state().intensity, Some(Intensity::Bold));
    log.apply_sgr_code(22);
    assert_eq!(log.visual_state().intensity, None);
    for code in [30u16, 33, 37, 90, 94, 97] {
        log.apply_sgr_code(code);
        assert_eq!(log.visual_state().fg, Some(Color::N(code as i64)));
    }
    for code in [40u16, 43, 47, 100, 104, 107] {
        log.apply_sgr_code(code);
        assert_eq!(log.visual_state().bg, Some(Color::N(code as i64)));
    }
    log.apply_sgr_code(39);
    assert_eq!(log.visual_state().fg, None);
    assert_eq!(log.visual_state().bg, Some(Color::N(107)));
    log.apply_sgr_code(49);
    assert_eq!(log.visual_state().bg, None);
    log.apply_sgr_code(1);
    log.apply_sgr_code(31);
    log.apply_sgr_code(0);
    assert_eq!(log.visual_state(), VisualState::new());
}

#[test]
fn sgr_codes_outside_the_table_change_nothing() {
    let mut log = Log::new();
    log.apply_sgr_code(1);
    log.apply_sgr_code(31);
    let before = log.visual_state();
    for code in [2u16, 3, 4, 29, 38, 48, 50, 89, 98, 99, 108, 65535] {
        log.apply_sgr_code(code);
        assert_eq!(log.visual_state(), before);
    }
}

#[test]
fn select_graphic_rendition_walks_groups_and_values() {
    let mut log = Log::new();
    log.select_graphic_rendition(&vec![vec![1, 31], vec![44], vec![39]]);
    let state = log.visual_state();
    assert_eq!(state.intensity, Some(Intensity::Bold));
    assert_eq!(state.fg, None);
    assert_eq!(state.bg, Some(Color::N(44)));
    log.select_graphic_rendition(&vec![]);
    assert_eq!(log.visual_state(), VisualState::new());
    log.apply_sgr_code(1);
    log.select_graphic_rendition(&vec![vec![], vec![]]);
    assert_eq!(log.visual_state(), VisualState::new());
}

#[test]
fn csi_dispatch_erase_and_cursor() {
    let mut log = Log::new();
    for c in "abc".chars() {
        log.print(c);
    }
    log.execute(0x0d);
    assert_eq!(log.csi_dispatch(&vec![vec![2]], &[], false, 'C'), Ok(()));
    assert_eq!(log.cursor(), 2);
    assert_eq!(log.csi_dispatch(&vec![vec![2]], &[], false, 'C'), Err(RenderError::CursorOutOfRange));
    assert_eq!(log.cursor(), 2);
    assert_eq!(log.csi_dispatch(&vec![vec![1]], &[], false, 'K'), Err(RenderError::UnsupportedEraseMode));
    assert_eq!(text(&log), "abc");
    assert_eq!(
        log.csi_dispatch(&vec![vec![0, 0]], &[], false, 'K'),
        Err(RenderError::UnexpectedParameterCount)
    );
    assert_eq!(text(&log), "abc");
    assert_eq!(log.csi_dispatch(&vec![vec![0]], &[], false, 'K'), Ok(()));
    assert_eq!(text(&log), "ab");
    assert_eq!(log.csi_dispatch(&vec![vec![7]], &[b'?'], true, 'h'), Ok(()));
    assert_eq!(text(&log), "ab");
    assert_eq!(log.cursor(), 2);
}

#[test]
fn apply_all_stops_at_the_refused_event() {
    let mut log = Log::new();
    let events = vec![
        Event::Print('a'),
        Event::Print('b'),
        Event::CsiDispatch {
            params: vec![vec![5]],
            intermediates: vec![],
            ignore: false,
            action: 'C',
        },
        Event::Print('c'),
    ];
    assert_eq!(log.apply_all(&events), Err(RenderError::CursorOutOfRange));
    assert_eq!(text(&log), "ab");
    assert_eq!(log.cursor(), 2);
    assert_eq!(log.apply(&Event::Print('c')), Ok(()));
    assert_eq!(text(&log), "abc");
}

#[test]
fn span_classes_of_a_style() {
    let plain = VisualState::new();
    assert_eq!(span_classes(plain), Ok(vec![]));
    let full = VisualState {
        intensity: Some(Intensity::Faint),
        fg: Some(Color::N(95)),
        bg: Some(Color::N(42)),
    };
    assert_eq!(
        span_classes(full),
        Ok(vec![String::from("sgr-faint"), String::from("sgr-fg-b6"), String::from("sgr-bg-3")])
    );
    let triple = VisualState { intensity: None, fg: Some(Color::RGB(1, 2, 3)), bg: None };
    assert_eq!(span_classes(triple), Ok(vec![]));
}

#[test]
fn open_span_appends_the_tag() {
    let mut out = String::from("x");
    let bold = VisualState { intensity: Some(Intensity::Bold), fg: None, bg: Some(Color::N(100)) };
    assert_eq!(open_span(bold, &mut out), Ok(true));
    assert_eq!(out, "x<span class=\"sgr-bold sgr-bg-b1\">");
    assert_eq!(open_span(VisualState::new(), &mut out), Ok(false));
    assert_eq!(out, "x<span class=\"sgr-bold sgr-bg-b1\">");
}

#[test]
fn invalid_color_is_refused() {
    for fg in [0i64, 29, 38, 44, 89, 98, 107, -1] {
        let style = VisualState { intensity: None, fg: Some(Color::N(fg)), bg: None };
        assert_eq!(span_classes(style), Err(RenderError::InvalidColorValue));
    }
    for bg in [0i64, 31, 39, 48, 99, 108, 97, -1] {
        let style = VisualState { intensity: None, fg: None, bg: Some(Color::N(bg)) };
        assert_eq!(span_classes(style), Err(RenderError::InvalidColorValue));
    }
    let mut out = String::from("x");
    let bad = VisualState { intensity: Some(Intensity::Bold), fg: Some(Color::N(44)), bg: None };
    assert_eq!(open_span(bad, &mut out), Err(RenderError::InvalidColorValue));
    assert_eq!(out, "x");
    let mut log = Log::new();
    log.write('a');
    log.set_bg(Some(Color::N(31)));
    log.write('b');
    assert_eq!(log.to_html(), Err(RenderError::InvalidColorValue));
}

#[test]
fn to_html_groups_runs() {
    let mut log = Log::new();
    log.write('a');
    log.set_fg(Some(Color::N(31)));
    log.write('b');
    log.write('c');
    log.set_fg(Some(Color::RGB(1, 2, 3)));
    log.write('d');
    log.set_fg(Some(Color::N(31)));
    log.write('e');
    assert_eq!(
        log.to_html(),
        Ok(String::from("a<span class=\"sgr-fg-2\">bc</span>d<span class=\"sgr-fg-2\">e</span>"))
    );
    assert_eq!(Log::new().to_html(), Ok(String::new()));
}
