use barchart::Buffer;
use barchart::Cell;
use barchart::Color;
use barchart::Line;
use barchart::Span;
use barchart::Style;

fn chars(s: &str) -> Vec<char> {
    s.chars().collect()
}

#[test]
fn merge_onto_explicit_attributes_win() {
    let over = Style::default().fg(Color::Red);
    let base = Style::default().fg(Color::Blue).bg(Color::White).bold(true);
    let merged = over.merge_onto(base);
    assert_eq!(merged.fg, Some(Color::Red));
    assert_eq!(merged.bg, Some(Color::White));
    assert_eq!(merged.bold, Some(true));
}

#[test]
fn merge_onto_unset_attributes_fall_through() {
    let merged = Style::default().merge_onto(Style::default().bg(Color::Green));
    assert_eq!(merged, Style::default().bg(Color::Green));
}

#[test]
fn line_width_sums_span_widths() {
    let a = Span::new("abc".to_string(), Style::default());
    let b = Span::new("de".to_string(), Style::default());
    let l = Line::new(vec![a, b]);
    assert_eq!(l.width(), 5);
}

#[test]
fn line_flatten_keeps_span_order_and_styles() {
    let red = Style::default().fg(Color::Red);
    let blue = Style::default().fg(Color::Blue);
    let l = Line::new(vec![
        Span::new("ab".to_string(), red),
        Span::new("c".to_string(), blue),
    ]);
    let cells = l.flatten();
    assert_eq!(
        cells,
        vec![
            Cell { symbol: 'a', style: red },
            Cell { symbol: 'b', style: red },
            Cell { symbol: 'c', style: blue },
        ]
    );
}

#[test]
fn patch_style_wins_ties_and_keeps_characters() {
    let red = Style::default().fg(Color::Red);
    let blue_on_white = Style::default().fg(Color::Blue).bg(Color::White);
    let mut l = Line::new(vec![Span::new("hi".to_string(), blue_on_white)]);
    l.patch_style(red);
    let cells = l.flatten();
    let want = Style {
        fg: Some(Color::Red),
        bg: Some(Color::White),
        bold: None,
    };
    assert_eq!(
        cells,
        vec![
            Cell { symbol: 'h', style: want },
            Cell { symbol: 'i', style: want },
        ]
    );
}

#[test]
fn buffer_new_is_blank() {
    let buf = Buffer::new(3, 2);
    for y in 0..2 {
        for x in 0..3 {
            assert_eq!(
                buf.get(x, y),
                Cell { symbol: ' ', style: Style::default() }
            );
        }
    }
}

#[test]
fn set_stringn_caps_the_character_count() {
    let mut buf = Buffer::new(8, 1);
    let red = Style::default().fg(Color::Red);
    buf.set_stringn(1, 0, &chars("hello"), 3, red);
    assert_eq!(buf.get(1, 0), Cell { symbol: 'h', style: red });
    assert_eq!(buf.get(2, 0), Cell { symbol: 'e', style: red });
    assert_eq!(buf.get(3, 0), Cell { symbol: 'l', style: red });
    assert_eq!(buf.get(4, 0), Cell { symbol: ' ', style: Style::default() });
}

#[test]
fn set_string_clips_at_the_right_edge() {
    let mut buf = Buffer::new(5, 1);
    let st = Style::default();
    buf.set_string(3, 0, &chars("9999"), st);
    assert_eq!(buf.get(2, 0), Cell { symbol: ' ', style: st });
    assert_eq!(buf.get(3, 0), Cell { symbol: '9', style: st });
    assert_eq!(buf.get(4, 0), Cell { symbol: '9', style: st });
}

#[test]
fn set_string_outside_the_buffer_is_noop() {
    let mut buf = Buffer::new(4, 2);
    buf.set_string(0, 2, &chars("xy"), Style::default());
    buf.set_string(4, 0, &chars("xy"), Style::default());
    for y in 0..2 {
        for x in 0..4 {
            assert_eq!(
                buf.get(x, y),
                Cell { symbol: ' ', style: Style::default() }
            );
        }
    }
}

#[test]
fn set_line_clips_to_max_width() {
    let mut buf = Buffer::new(10, 1);
    let red = Style::default().fg(Color::Red);
    let blue = Style::default().fg(Color::Blue);
    let l = Line::new(vec![
        Span::new("ab".to_string(), red),
        Span::new("cd".to_string(), blue),
    ]);
    buf.set_line(2, 0, &l, 3);
    assert_eq!(buf.get(2, 0), Cell { symbol: 'a', style: red });
    assert_eq!(buf.get(3, 0), Cell { symbol: 'b', style: red });
    assert_eq!(buf.get(4, 0), Cell { symbol: 'c', style: blue });
    assert_eq!(buf.get(5, 0), Cell { symbol: ' ', style: Style::default() });
}
