use vstd::math::min;
use vstd::prelude::*;

use crate::buffer::Buffer;
use crate::buffer::Rect;
use crate::buffer::cell_after_write;
use crate::buffer::write_count;
use crate::cell::Cell;
use crate::cell::cell_of;
use crate::cell::patched_cells;
use crate::cell::styled_cells;
use crate::decimal::decimal_rep;
use crate::decimal::to_decimal_chars;
use crate::style::Style;
use crate::style::merged;
use crate::text::Line;
use crate::text::chars_of;

verus! {

/// One bar of a bar chart: a numeric magnitude, an optional caption label,
/// an optional override display string, and two styles.
#[derive(Debug)]
pub struct Bar {
    /// Value to display on the bar.
    pub value: u64,
    /// Optional label printed under the bar.
    pub label: Option<Line>,
    /// Style for the bar's fill cells, consumed by the surrounding chart
    /// layer's column-fill routine, not by the renderers here.
    pub style: Style,
    /// Style of the value printed on the bar.
    pub value_style: Style,
    /// Optional text shown on the bar in place of the numeric value.
    pub text_value: Option<String>,
}

impl Default for Bar {
    /// A bar with value zero, no label, no override text, and unset styles.
    fn default() -> (r: Bar)
        ensures
            r.value == 0,
            r.label is None,
            r.style == (Style { fg: None, bg: None, bold: None }),
            r.value_style == (Style { fg: None, bg: None, bold: None }),
            r.text_value is None,
    {
        Bar {
            value: 0,
            label: None,
            style: Style { fg: None, bg: None, bold: None },
            value_style: Style { fg: None, bg: None, bold: None },
            text_value: None,
        }
    }
}

impl Bar {
    /// Set the numeric value.
    pub fn value(self, amount: u64) -> (r: Bar)
        ensures
            r.value == amount,
            r.label == self.label,
            r.style == self.style,
            r.value_style == self.value_style,
            r.text_value == self.text_value,
    {
        Bar {
            value: amount,
            label: self.label,
            style: self.style,
            value_style: self.value_style,
            text_value: self.text_value,
        }
    }

    /// Set the label printed under the bar.
    pub fn label(self, caption: Line) -> (r: Bar)
        ensures
            r.value == self.value,
            r.label == Some(caption),
            r.style == self.style,
            r.value_style == self.value_style,
            r.text_value == self.text_value,
    {
        Bar {
            value: self.value,
            label: Some(caption),
            style: self.style,
            value_style: self.value_style,
            text_value: self.text_value,
        }
    }

    /// Set the style of the bar's fill cells.
    pub fn style(self, fill: Style) -> (r: Bar)
        ensures
            r.value == self.value,
            r.label == self.label,
            r.style == fill,
            r.value_style == self.value_style,
            r.text_value == self.text_value,
    {
        Bar {
            value: self.value,
            label: self.label,
            style: fill,
            value_style: self.value_style,
            text_value: self.text_value,
        }
    }

    /// Set the style of the value printed on the bar.
    pub fn value_style(self, paint: Style) -> (r: Bar)
        ensures
            r.value == self.value,
            r.label == self.label,
            r.style == self.style,
            r.value_style == paint,
            r.text_value == self.text_value,
    {
        Bar {
            value: self.value,
            label: self.label,
            style: self.style,
            value_style: paint,
            text_value: self.text_value,
        }
    }

    /// Set the text shown on the bar instead of the numeric value.
    pub fn text_value(self, text: String) -> (r: Bar)
        ensures
            r.value == self.value,
            r.label == self.label,
            r.style == self.style,
            r.value_style == self.value_style,
            r.text_value == Some(text),
    {
        Bar {
            value: self.value,
            label: self.label,
            style: self.style,
            value_style: self.value_style,
            text_value: Some(text),
        }
    }

    /// The display text this bar resolves to: the override text if one is
    /// set, else the decimal representation of the value.
    pub open spec fn resolved_text(self) -> Seq<char> {
        match self.text_value {
            Some(t) => t@,
            None => decimal_rep(self.value as nat),
        }
    }

    /// Resolve the display text.
    pub fn resolve_text(&self) -> (r: Vec<char>)
        ensures
            r@ == self.resolved_text(),
    {
        match &self.text_value {
            Some(t) => chars_of(t.as_str()),
            None => to_decimal_chars(self.value),
        }
    }
}

/// A bar with no override text resolves to the decimal representation of its
/// value, for every value.
pub proof fn lemma_resolved_is_decimal(bar: Bar)
    requires
        bar.text_value is None,
    ensures
        bar.resolved_text() == decimal_rep(bar.value as nat),
{
}

/// The cell at `(cx, cy)` after the embedded-value renderer runs over `pre`:
/// the resolved text's first `min(n, bar_size)` characters land at the bar's
/// origin in the value style merged onto `default_value_style`; when the text
/// is wider than the bar, the rest lands just past the bar's own width in
/// `bar_style` verbatim, capped at the row width that remains; the buffer's
/// edges clip both writes, and an empty resolved text writes nothing.
pub open spec fn embedded_cell(
    pre: Buffer,
    bar: Bar,
    area: Rect,
    bar_size: int,
    default_value_style: Style,
    bar_style: Style,
    cx: int,
    cy: int,
) -> Cell {
    let text = bar.resolved_text();
    let n = text.len() as int;
    let vstyle = merged(bar.value_style, default_value_style);
    let first_count = write_count(pre, area.x as int, n, min(n, bar_size));
    let second_count = write_count(pre, area.x as int + bar_size, n - bar_size, area.width as int - bar_size);
    if n == 0 {
        pre.cell(cx, cy)
    } else if cy == area.y as int && area.x as int <= cx < area.x as int + first_count {
        cell_of(text[cx - area.x as int], vstyle)
    } else if n > bar_size && cy == area.y as int && area.x as int + bar_size <= cx
        < area.x as int + bar_size + second_count {
        cell_of(text[cx - area.x as int], bar_style)
    } else {
        pre.cell(cx, cy)
    }
}

impl Bar {
    /// Render the resolved display text into row `area.y` starting at column
    /// `area.x`: the part inside the bar's own width in the value style
    /// merged onto `default_value_style`, any overflow past it in `bar_style`
    /// verbatim, bounded by the row width that remains. An empty resolved
    /// text renders nothing.
    pub fn render_value_with_different_styles(
        self,
        buf: &mut Buffer,
        area: Rect,
        bar_size: usize,
        default_value_style: Style,
        bar_style: Style,
    )
        requires
            old(buf).wf(),
            bar_size <= area.width as usize,
            area.x as int + area.width as int <= u16::MAX as int,
        ensures
            final(buf).wf(),
            final(buf).width == old(buf).width,
            final(buf).height == old(buf).height,
            forall|cx: int, cy: int|
                final(buf).in_bounds(cx, cy) ==> final(buf).cell(cx, cy) == embedded_cell(
                    *old(buf),
                    self,
                    area,
                    bar_size as int,
                    default_value_style,
                    bar_style,
                    cx,
                    cy,
                ),
            self.resolved_text().len() == 0 ==> *final(buf) == *old(buf),
    {
        let text = self.resolve_text();
        let n: usize = text.len();
        if n > 0 {
            let vstyle = self.value_style.merge_onto(default_value_style);
            let first_max: usize = if n < bar_size {
                n
            } else {
                bar_size
            };
            buf.set_stringn(area.x, area.y, &text, first_max, vstyle);
            if n > bar_size {
                let mut second: Vec<char> = Vec::new();
                let mut j: usize = bar_size;
                while j < n
                    invariant
                        bar_size <= j <= n,
                        n == text@.len(),
                        second@ == text@.subrange(bar_size as int, j as int),
                    decreases n - j,
                {
                    let ch = text[j];
                    second.push(ch);
                    proof {
                        assert(text@.subrange(bar_size as int, j + 1) =~= text@.subrange(
                            bar_size as int,
                            j as int,
                        ).push(ch));
                    }
                    j += 1;
                }
                buf.set_stringn(
                    area.x + (bar_size as u16),
                    area.y,
                    &second,
                    (area.width as usize) - bar_size,
                    bar_style,
                );
            }
        }
    }
}

/// The cell at `(cx, cy)` after the caption renderer's value line alone runs
/// over `pre`: the resolved text, centered in the span `[x, x + max_width)`
/// at offset `(max_width - n) / 2`, in the value style merged onto
/// `default_value_style` — but only when the value is nonzero and the text is
/// strictly narrower than `max_width`; otherwise the value line is omitted
/// entirely and every cell keeps its old content.
pub open spec fn caption_value_cell(
    pre: Buffer,
    bar: Bar,
    max_width: int,
    x: int,
    y: int,
    default_value_style: Style,
    cx: int,
    cy: int,
) -> Cell {
    let text = bar.resolved_text();
    let n = text.len() as int;
    let vstyle = merged(bar.value_style, default_value_style);
    let voff = (max_width - n) / 2;
    if bar.value != 0 && n < max_width {
        cell_after_write(pre, x + voff, y, styled_cells(text, vstyle), n, cx, cy)
    } else {
        pre.cell(cx, cy)
    }
}

/// The cell at `(cx, cy)` after the centered-caption renderer runs over
/// `pre`: the value line on row `y` as in [`caption_value_cell`], and, when a
/// label is set, the label on row `y + 1` with `default_label_style` merged
/// onto its span styles, centered at offset `max(0, (max_width - w) / 2)` and
/// clipped to `max_width` columns.
pub open spec fn caption_cell(
    pre: Buffer,
    bar: Bar,
    max_width: int,
    x: int,
    y: int,
    default_value_style: Style,
    default_label_style: Style,
    cx: int,
    cy: int,
) -> Cell {
    match bar.label {
        Some(l) => {
            let cells = patched_cells(l.flat(), default_label_style);
            let w = l.flat().len() as int;
            let loff = if w < max_width {
                (max_width - w) / 2
            } else {
                0
            };
            let lcount = write_count(pre, x + loff, w, max_width);
            if cy == y + 1 && x + loff <= cx < x + loff + lcount {
                cells[cx - (x + loff)]
            } else {
                caption_value_cell(pre, bar, max_width, x, y, default_value_style, cx, cy)
            }
        },
        None => caption_value_cell(pre, bar, max_width, x, y, default_value_style, cx, cy),
    }
}

impl Bar {
    /// Render a centered value line on row `y` and a centered label line on
    /// row `y + 1`, each independently centered in `[x, x + max_width)`. The
    /// value line is omitted when the value is zero — even when an override
    /// text is set — and when the resolved text is `max_width` wide or wider;
    /// the label is clipped to `max_width` columns and never gets a negative
    /// offset.
    pub fn render_label_and_value(
        self,
        buf: &mut Buffer,
        max_width: u16,
        x: u16,
        y: u16,
        default_value_style: Style,
        default_label_style: Style,
    )
        requires
            old(buf).wf(),
            x as int + max_width as int <= u16::MAX as int,
            y < u16::MAX,
            self.label matches Some(l) ==> l.flat().len() <= usize::MAX,
        ensures
            final(buf).wf(),
            final(buf).width == old(buf).width,
            final(buf).height == old(buf).height,
            forall|cx: int, cy: int|
                final(buf).in_bounds(cx, cy) ==> final(buf).cell(cx, cy) == caption_cell(
                    *old(buf),
                    self,
                    max_width as int,
                    x as int,
                    y as int,
                    default_value_style,
                    default_label_style,
                    cx,
                    cy,
                ),
    {
        if self.value != 0 {
            let text = self.resolve_text();
            let n: usize = text.len();
            if n < max_width as usize {
                let offset: u16 = (max_width - (n as u16)) / 2;
                let vstyle = self.value_style.merge_onto(default_value_style);
                buf.set_string(x + offset, y, &text, vstyle);
            }
        }
        match self.label {
            Some(mut label) => {
                label.patch_style(default_label_style);
                let lw: usize = label.width();
                let offset: u16 = if lw < max_width as usize {
                    (max_width - (lw as u16)) / 2
                } else {
                    0
                };
                buf.set_line(x + offset, y + 1, &label, max_width);
            },
            None => {},
        }
    }
}

/// Embedded-value renderer, where nothing clips: with resolved text of
/// length `n` and bar width `w`, columns `[x, x + min(n, w))` of the target
/// row show the text in the value style merged onto the default, columns
/// `[x + w, x + n)` show the rest in the overflow style verbatim, and no
/// other cell changes. An empty resolved text changes nothing.
pub proof fn lemma_embedded_segments(
    pre: Buffer,
    bar: Bar,
    area: Rect,
    bar_size: int,
    default_value_style: Style,
    bar_style: Style,
    cx: int,
    cy: int,
)
    requires
        pre.wf(),
        pre.in_bounds(cx, cy),
        0 <= bar_size <= area.width as int,
        bar.resolved_text().len() <= area.width as int,
        area.x as int + area.width as int <= pre.width as int,
    ensures
        ({
            let text = bar.resolved_text();
            let n = text.len() as int;
            let vstyle = merged(bar.value_style, default_value_style);
            let e = embedded_cell(pre, bar, area, bar_size, default_value_style, bar_style, cx, cy);
            &&& (n > 0 && cy == area.y as int && area.x as int <= cx < area.x as int + min(
                n,
                bar_size,
            )) ==> e == cell_of(text[cx - area.x as int], vstyle)
            &&& (n > bar_size && cy == area.y as int && area.x as int + bar_size <= cx < area.x as int
                + n) ==> e == cell_of(text[cx - area.x as int], bar_style)
            &&& !(cy == area.y as int && area.x as int <= cx < area.x as int + n) ==> e == pre.cell(
                cx,
                cy,
            )
        }),
{
}

/// Centered-caption renderer, value row: the value text appears iff the
/// value is nonzero and the resolved text is strictly narrower than
/// `max_width`, centered at offset `(max_width - n) / 2` in the value style
/// merged onto the default; otherwise the row keeps its old content, and so
/// do the cells beside the centered text.
pub proof fn lemma_caption_value_line(
    pre: Buffer,
    bar: Bar,
    max_width: int,
    x: int,
    y: int,
    default_value_style: Style,
    default_label_style: Style,
    cx: int,
    cy: int,
)
    requires
        pre.wf(),
        pre.in_bounds(cx, cy),
        cy == y,
        0 <= x,
        0 <= max_width,
        x + max_width <= pre.width as int,
    ensures
        ({
            let text = bar.resolved_text();
            let n = text.len() as int;
            let vstyle = merged(bar.value_style, default_value_style);
            let voff = (max_width - n) / 2;
            let c = caption_cell(
                pre,
                bar,
                max_width,
                x,
                y,
                default_value_style,
                default_label_style,
                cx,
                cy,
            );
            &&& (bar.value != 0 && n < max_width && x + voff <= cx < x + voff + n) ==> c == cell_of(
                text[cx - (x + voff)],
                vstyle,
            )
            &&& (bar.value == 0 || n >= max_width) ==> c == pre.cell(cx, cy)
            &&& !(x + voff <= cx < x + voff + n) ==> c == pre.cell(cx, cy)
        }),
{
}

/// Centered-caption renderer, label row: the label appears iff one is set,
/// with the default label style merged onto each span's own style, centered
/// at offset `max(0, (max_width - w) / 2)`; it never paints more than
/// `max_width` cells, and without a label the row keeps its old content.
pub proof fn lemma_caption_label_line(
    pre: Buffer,
    bar: Bar,
    max_width: int,
    x: int,
    y: int,
    default_value_style: Style,
    default_label_style: Style,
    cx: int,
    cy: int,
)
    requires
        pre.wf(),
        pre.in_bounds(cx, cy),
        cy == y + 1,
        0 <= x,
        0 <= max_width,
        x + max_width <= pre.width as int,
    ensures
        ({
            let c = caption_cell(
                pre,
                bar,
                max_width,
                x,
                y,
                default_value_style,
                default_label_style,
                cx,
                cy,
            );
            &&& bar.label is None ==> c == pre.cell(cx, cy)
            &&& match bar.label {
                Some(l) => {
                    let cells = patched_cells(l.flat(), default_label_style);
                    let w = l.flat().len() as int;
                    let loff = if w < max_width {
                        (max_width - w) / 2
                    } else {
                        0
                    };
                    let k = write_count(pre, x + loff, w, max_width);
                    &&& k <= max_width
                    &&& (x + loff <= cx < x + loff + k) ==> c == cells[cx - (x + loff)]
                    &&& !(x + loff <= cx < x + loff + k) ==> c == pre.cell(cx, cy)
                },
                None => true,
            }
        }),
{
}

/// The centered-caption renderer touches no row but the value row `y` and
/// the label row `y + 1`.
pub proof fn lemma_caption_other_rows(
    pre: Buffer,
    bar: Bar,
    max_width: int,
    x: int,
    y: int,
    default_value_style: Style,
    default_label_style: Style,
    cx: int,
    cy: int,
)
    requires
        pre.wf(),
        pre.in_bounds(cx, cy),
        cy != y,
        cy != y + 1,
    ensures
        caption_cell(
            pre,
            bar,
            max_width,
            x,
            y,
            default_value_style,
            default_label_style,
            cx,
            cy,
        ) == pre.cell(cx, cy),
{
}

} // verus!
