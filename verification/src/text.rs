use vstd::prelude::*;

use crate::cell::Cell;
use crate::cell::cell_of;
use crate::cell::patched_cells;
use crate::cell::styled_cells;
use crate::style::Style;
use crate::style::merged;

verus! {

/// One run of characters drawn in a single style.
#[derive(Debug)]
pub struct Span {
    pub content: String,
    pub style: Style,
}

impl Span {
    /// Build one span.
    pub fn new(text: String, paint: Style) -> (r: Span)
        ensures
            r.content@ == text@,
            r.style == paint,
    {
        Span { content: text, style: paint }
    }
}

/// The cells of one span: its characters, each in the span's style.
pub open spec fn span_cells(sp: Span) -> Seq<Cell> {
    styled_cells(sp.content@, sp.style)
}

/// The cells of a row of spans, in order.
pub open spec fn flat_of_spans(spans: Seq<Span>) -> Seq<Cell>
    decreases spans.len(),
{
    if spans.len() == 0 {
        Seq::empty()
    } else {
        flat_of_spans(spans.drop_last()) + span_cells(spans.last())
    }
}

/// Flattening one more span appends its cells.
proof fn lemma_flat_take_succ(spans: Seq<Span>, i: int)
    requires
        0 <= i < spans.len(),
    ensures
        flat_of_spans(spans.take(i + 1)) == flat_of_spans(spans.take(i)) + span_cells(spans[i]),
{
    let t = spans.take(i + 1);
    assert(t.drop_last() =~= spans.take(i));
    assert(t.last() == spans[i]);
}

/// A prefix of the spans never flattens to more cells than the whole line.
proof fn lemma_flat_take_len_le(spans: Seq<Span>, i: int)
    requires
        0 <= i <= spans.len(),
    ensures
        flat_of_spans(spans.take(i)).len() <= flat_of_spans(spans).len(),
    decreases spans.len() - i,
{
    if i < spans.len() {
        lemma_flat_take_succ(spans, i);
        lemma_flat_take_len_le(spans, i + 1);
    } else {
        assert(spans.take(i) =~= spans);
    }
}

/// A styled line of text: an ordered sequence of styled spans.
#[derive(Debug)]
pub struct Line {
    pub spans: Vec<Span>,
}

impl Line {
    /// The line as a row of styled cells, spans in order.
    pub open spec fn flat(self) -> Seq<Cell> {
        flat_of_spans(self.spans@)
    }

    /// Build a line from its spans.
    pub fn new(spans: Vec<Span>) -> (r: Line)
        ensures
            r.spans@ == spans@,
    {
        Line { spans: spans }
    }

    /// The line as one row of cells.
    pub fn flatten(&self) -> (r: Vec<Cell>)
        ensures
            r@ == self.flat(),
    {
        let mut out: Vec<Cell> = Vec::new();
        let mut i: usize = 0;
        let n: usize = self.spans.len();
        while i < n
            invariant
                i <= n,
                n == self.spans@.len(),
                out@ == flat_of_spans(self.spans@.take(i as int)),
            decreases n - i,
        {
            let sp = &self.spans[i];
            let m: usize = sp.content.as_str().unicode_len();
            let mut j: usize = 0;
            while j < m
                invariant
                    j <= m,
                    i < n,
                    n == self.spans@.len(),
                    m == self.spans@[i as int].content@.len(),
                    sp == &self.spans@[i as int],
                    out@ == flat_of_spans(self.spans@.take(i as int)) + styled_cells(
                        self.spans@[i as int].content@.take(j as int),
                        self.spans@[i as int].style,
                    ),
                decreases m - j,
            {
                let ch = sp.content.as_str().get_char(j);
                out.push(Cell::new(ch, sp.style));
                proof {
                    assert(styled_cells(sp.content@.take(j + 1), sp.style) =~= styled_cells(
                        sp.content@.take(j as int),
                        sp.style,
                    ).push(cell_of(ch, sp.style)));
                }
                j += 1;
            }
            proof {
                lemma_flat_take_succ(self.spans@, i as int);
                assert(sp.content@.take(m as int) =~= sp.content@);
            }
            i += 1;
        }
        proof {
            assert(self.spans@.take(n as int) =~= self.spans@);
        }
        out
    }

    /// The display width of the line: how many cells its text occupies.
    pub fn width(&self) -> (r: usize)
        requires
            self.flat().len() <= usize::MAX,
        ensures
            r == self.flat().len(),
    {
        let mut acc: usize = 0;
        let mut i: usize = 0;
        let n: usize = self.spans.len();
        while i < n
            invariant
                i <= n,
                n == self.spans@.len(),
                self.flat().len() <= usize::MAX,
                acc == flat_of_spans(self.spans@.take(i as int)).len(),
            decreases n - i,
        {
            let m: usize = self.spans[i].content.as_str().unicode_len();
            proof {
                lemma_flat_take_succ(self.spans@, i as int);
                lemma_flat_take_len_le(self.spans@, i as int + 1);
            }
            acc = acc + m;
            i += 1;
        }
        proof {
            assert(self.spans@.take(n as int) =~= self.spans@);
        }
        acc
    }

    /// Merge `patch` onto every span's style in place: `patch`'s explicit
    /// attributes win, its unset attributes fall through to each span's own
    /// style. The characters are untouched.
    pub fn patch_style(&mut self, patch: Style)
        ensures
            final(self).flat() == patched_cells(old(self).flat(), patch),
    {
        let mut out: Vec<Span> = Vec::new();
        let mut i: usize = 0;
        let n: usize = self.spans.len();
        while i < n
            invariant
                i <= n,
                n == self.spans@.len(),
                self == old(self),
                out@.len() == i,
                forall|k: int|
                    0 <= k < i ==> out@[k].content@ == self.spans@[k].content@ && out@[k].style
                        == merged(patch, self.spans@[k].style),
            decreases n - i,
        {
            let sp = &self.spans[i];
            let restyle = patch.merge_onto(sp.style);
            let text = sp.content.clone();
            out.push(Span::new(text, restyle));
            i += 1;
        }
        proof {
            lemma_flat_patched(self.spans@, out@, patch);
        }
        self.spans = out;
    }
}

/// Restyling every span of a line restyles every cell of its flattening.
proof fn lemma_flat_patched(a: Seq<Span>, b: Seq<Span>, patch: Style)
    requires
        a.len() == b.len(),
        forall|k: int|
            0 <= k < a.len() ==> b[k].content@ == a[k].content@ && b[k].style == merged(
                patch,
                a[k].style,
            ),
    ensures
        flat_of_spans(b) == patched_cells(flat_of_spans(a), patch),
    decreases a.len(),
{
    if a.len() == 0 {
        assert(flat_of_spans(b) =~= patched_cells(flat_of_spans(a), patch));
    } else {
        lemma_flat_patched(a.drop_last(), b.drop_last(), patch);
        assert(span_cells(b.last()) =~= patched_cells(span_cells(a.last()), patch));
        assert(flat_of_spans(b) =~= patched_cells(flat_of_spans(a), patch));
    }
}


/// The characters of a string, as one cell-wide vector.
pub fn chars_of(s: &str) -> (r: Vec<char>)
    ensures
        r@ == s@,
{
    let n: usize = s.unicode_len();
    let mut r: Vec<char> = Vec::new();
    let mut i: usize = 0;
    while i < n
        invariant
            i <= n,
            n == s@.len(),
            r@ == s@.take(i as int),
        decreases n - i,
    {
        let ch = s.get_char(i);
        r.push(ch);
        proof {
            assert(s@.take(i + 1) =~= s@.take(i as int).push(ch));
        }
        i += 1;
    }
    proof {
        assert(s@.take(n as int) =~= s@);
    }
    r
}

} // verus!
