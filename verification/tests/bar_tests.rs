use barchart::Bar;
use barchart::Buffer;
use barchart::Cell;
use barchart::Color;
use barchart::Line;
use barchart::Rect;
use barchart::Span;
use barchart::Style;
use barchart::decimal::to_decimal_chars;

fn chars(s: &str) -> Vec<char> {
    s.chars().collect()
}

fn blank() -> Cell {
    Cell {
        symbol: ' ',
        style: Style::default(),
    }
}

fn span(s: &str, style: Style) -> Span {
    Span::new(s.to_string(), style)
}

fn line(s: &str, style: Style) -> Line {
    Line::new(vec![span(s, style)])
}

/// Every cell of `buf` outside `touched` is still blank; those in `touched`
/// match the given cells.
fn assert_cells(buf: &Buffer, touched: &[(u16, u16, char, Style)]) {
    for y in 0..buf.height {
        for x in 0..buf.width {
            let got = buf.get(x, y);
            let expected = touched
                .iter()
                .find(|(tx, ty, _, _)| *tx == x && *ty == y)
                .map(|(_, _, ch, st)| Cell { symbol: *ch, style: *st })
                .unwrap_or_else(blank);
            assert_eq!(got, expected, "cell at ({x}, {y})");
        }
    }
}

#[test]
fn resolved_text_is_decimal_of_value() {
    let bar = Bar::default().value(42);
    assert_eq!(bar.resolve_text(), chars("42"));
}

#[test]
fn resolved_text_prefers_override() {
    let bar = Bar::default().value(42).text_value("9k".to_string());
    assert_eq!(bar.resolve_text(), chars("9k"));
}

#[test]
fn decimal_exact_values() {
    assert_eq!(to_decimal_chars(0), chars("0"));
    assert_eq!(to_decimal_chars(7), chars("7"));
    assert_eq!(to_decimal_chars(100), chars("100"));
    assert_eq!(to_decimal_chars(u64::MAX), chars("18446744073709551615"));
}

#[test]
fn builders_set_fields() {
    let red = Style::default().fg(Color::Red);
    let white = Style::default().fg(Color::White).bg(Color::Red);
    let bar = Bar::default()
        .value(10)
        .label(line("Bar 1", Style::default()))
        .style(red)
        .value_style(white)
        .text_value("10C".to_string());
    assert_eq!(bar.value, 10);
    assert_eq!(bar.style, red);
    assert_eq!(bar.value_style, white);
    assert_eq!(bar.text_value, Some("10C".to_string()));
    assert!(bar.label.is_some());
}

#[test]
fn embedded_writes_text_inside_bar() {
    // Bar width 7, resolved text "99": both digits land at the origin in the
    // merged value style, and nothing else changes.
    let mut buf = Buffer::new(30, 3);
    let value_style = Style::default().fg(Color::White);
    let bar = Bar::default().value(99).value_style(value_style);
    let area = Rect { x: 2, y: 1, width: 20, height: 1 };
    let default_style = Style::default().bg(Color::Red);
    let overflow = Style::default().fg(Color::Green);
    bar.render_value_with_different_styles(&mut buf, area, 7, default_style, overflow);
    let merged = value_style.merge_onto(default_style);
    assert_cells(&buf, &[(2, 1, '9', merged), (3, 1, '9', merged)]);
}

#[test]
fn embedded_splits_overflow_across_styles() {
    // Text wider than the bar: the first `bar_size` characters take the
    // merged value style, the rest the overflow style verbatim.
    let mut buf = Buffer::new(30, 2);
    let value_style = Style::default().fg(Color::White);
    let bar = Bar::default().value(100).value_style(value_style);
    let area = Rect { x: 4, y: 0, width: 6, height: 1 };
    let default_style = Style::default().bg(Color::Blue);
    let overflow = Style::default().fg(Color::Green);
    bar.render_value_with_different_styles(&mut buf, area, 2, default_style, overflow);
    let merged = value_style.merge_onto(default_style);
    assert_cells(
        &buf,
        &[
            (4, 0, '1', merged),
            (5, 0, '0', merged),
            (6, 0, '0', overflow),
        ],
    );
}

#[test]
fn embedded_text_fitting_bar_has_no_overflow_segment() {
    // Bar width 4, text "100" where only 4 columns are available in all:
    // every character fits inside the bar, nothing is drawn past it.
    let mut buf = Buffer::new(10, 1);
    let bar = Bar::default().value(100);
    let area = Rect { x: 0, y: 0, width: 4, height: 1 };
    let overflow = Style::default().fg(Color::Green);
    bar.render_value_with_different_styles(&mut buf, area, 4, Style::default(), overflow);
    let st = Style::default();
    assert_cells(&buf, &[(0, 0, '1', st), (1, 0, '0', st), (2, 0, '0', st)]);
}

#[test]
fn embedded_empty_override_renders_nothing() {
    // An empty override text is the only way to suppress the embedded value.
    let mut buf = Buffer::new(10, 1);
    let bar = Bar::default().value(5).text_value(String::new());
    let area = Rect { x: 0, y: 0, width: 8, height: 1 };
    bar.render_value_with_different_styles(&mut buf, area, 4, Style::default(), Style::default());
    assert_cells(&buf, &[]);
}

#[test]
fn embedded_zero_value_still_renders_digit() {
    // Without an override, value 0 resolves to the non-empty text "0".
    let mut buf = Buffer::new(10, 1);
    let bar = Bar::default();
    let area = Rect { x: 0, y: 0, width: 8, height: 1 };
    bar.render_value_with_different_styles(&mut buf, area, 4, Style::default(), Style::default());
    assert_cells(&buf, &[(0, 0, '0', Style::default())]);
}

#[test]
fn embedded_clips_at_buffer_edge() {
    let mut buf = Buffer::new(5, 1);
    let bar = Bar::default().text_value("9999".to_string());
    let area = Rect { x: 3, y: 0, width: 2, height: 1 };
    bar.render_value_with_different_styles(&mut buf, area, 2, Style::default(), Style::default());
    let st = Style::default();
    assert_cells(&buf, &[(3, 0, '9', st), (4, 0, '9', st)]);
}

#[test]
fn embedded_off_screen_row_is_noop() {
    let mut buf = Buffer::new(5, 2);
    let bar = Bar::default().value(7);
    let area = Rect { x: 0, y: 4, width: 5, height: 1 };
    bar.render_value_with_different_styles(&mut buf, area, 3, Style::default(), Style::default());
    assert_cells(&buf, &[]);
}

#[test]
fn caption_value_line_is_centered() {
    // max_width 7, text "99": offset (7 - 2) / 2 = 2, the extra column on the
    // right.
    let mut buf = Buffer::new(10, 2);
    let bar = Bar::default().value(99);
    bar.render_label_and_value(&mut buf, 7, 1, 0, Style::default(), Style::default());
    let st = Style::default();
    assert_cells(&buf, &[(3, 0, '9', st), (4, 0, '9', st)]);
}

#[test]
fn caption_value_too_wide_is_omitted() {
    // Resolved text as wide as max_width is dropped entirely, not clipped.
    let mut buf = Buffer::new(10, 2);
    let bar = Bar::default().value(100);
    bar.render_label_and_value(&mut buf, 3, 0, 0, Style::default(), Style::default());
    assert_cells(&buf, &[]);
}

#[test]
fn caption_zero_value_omits_value_line_despite_override() {
    // The suppression tests the raw value, not the resolved text: value 0
    // with override "20M" renders no value line here, while the embedded
    // renderer shows the override for the same bar.
    let bar = || Bar::default().value(0).text_value("20M".to_string());

    let mut caption_buf = Buffer::new(12, 2);
    bar().render_label_and_value(&mut caption_buf, 8, 0, 0, Style::default(), Style::default());
    assert_cells(&caption_buf, &[]);

    let mut embedded_buf = Buffer::new(12, 1);
    let area = Rect { x: 0, y: 0, width: 8, height: 1 };
    bar().render_value_with_different_styles(
        &mut embedded_buf,
        area,
        4,
        Style::default(),
        Style::default(),
    );
    let st = Style::default();
    assert_cells(
        &embedded_buf,
        &[(0, 0, '2', st), (1, 0, '0', st), (2, 0, 'M', st)],
    );
}

#[test]
fn caption_label_offset_is_centered() {
    // max_width 4, label "C1": offset (4 - 2) / 2 = 1, on the row below the
    // value.
    let mut buf = Buffer::new(8, 3);
    let label_style = Style::default().fg(Color::Cyan);
    let bar = Bar::default().label(line("C1", label_style));
    bar.render_label_and_value(&mut buf, 4, 0, 1, Style::default(), Style::default());
    assert_cells(&buf, &[(1, 2, 'C', label_style), (2, 2, '1', label_style)]);
}

#[test]
fn caption_label_wider_than_span_is_clipped_at_offset_zero() {
    let mut buf = Buffer::new(10, 2);
    let bar = Bar::default().label(line("ABCDEF", Style::default()));
    bar.render_label_and_value(&mut buf, 4, 2, 0, Style::default(), Style::default());
    let st = Style::default();
    assert_cells(
        &buf,
        &[(2, 1, 'A', st), (3, 1, 'B', st), (4, 1, 'C', st), (5, 1, 'D', st)],
    );
}

#[test]
fn caption_renders_value_and_label_together() {
    let mut buf = Buffer::new(8, 2);
    let bar = Bar::default().value(50).label(line("half", Style::default()));
    bar.render_label_and_value(&mut buf, 6, 0, 0, Style::default(), Style::default());
    let st = Style::default();
    assert_cells(
        &buf,
        &[
            (2, 0, '5', st),
            (3, 0, '0', st),
            (1, 1, 'h', st),
            (2, 1, 'a', st),
            (3, 1, 'l', st),
            (4, 1, 'f', st),
        ],
    );
}

#[test]
fn caption_label_style_merged_onto_spans() {
    // The default label style's explicit attributes win; a span keeps its own
    // where the default is unset.
    let mut buf = Buffer::new(6, 2);
    let span_style = Style::default().fg(Color::Blue).bg(Color::White);
    let bar = Bar::default().label(line("ab", span_style));
    let default_label = Style::default().fg(Color::Red);
    bar.render_label_and_value(&mut buf, 2, 0, 0, Style::default(), default_label);
    let want = Style {
        fg: Some(Color::Red),
        bg: Some(Color::White),
        bold: None,
    };
    assert_cells(&buf, &[(0, 1, 'a', want), (1, 1, 'b', want)]);
}
