use vstd::prelude::*;
use unicode_segmentation::UnicodeSegmentation;
use unicode_width::UnicodeWidthStr;
use crate::buffer::{Buffer, Cell, cell_index, written};
use crate::geometry::Rect;
use crate::style::Style;

verus! {

/// The extended grapheme clusters of a string, in order.
pub uninterp spec fn graphemes_of(s: Seq<char>) -> Seq<Seq<char>>;

/// The display width of a string in terminal columns (wide East Asian glyphs count two).
pub uninterp spec fn display_width(s: Seq<char>) -> nat;

/// Relies on `UnicodeSegmentation::graphemes(s, true)`: the extended grapheme clusters of `s`.
#[verifier::external_body]
fn split_graphemes(s: &str) -> (r: Vec<String>)
    ensures
        r@.len() == graphemes_of(s@).len(),
        forall|i: int| 0 <= i < r@.len() ==> #[trigger] r@[i]@ == graphemes_of(s@)[i],
{
    UnicodeSegmentation::graphemes(s, true).map(String::from).collect()
}

/// Relies on `UnicodeWidthStr::width`: the display width of `s` in columns.
#[verifier::external_body]
fn str_width(s: &str) -> (r: usize)
    ensures
        r == display_width(s@),
{
    UnicodeWidthStr::width(s)
}

/// Largest value of a 16-bit terminal coordinate.
pub const COORD_MAX: u16 = 65535;

/// `x` capped at the largest terminal coordinate.
pub open spec fn sat16(x: int) -> int {
    if x > COORD_MAX { COORD_MAX as int } else { x }
}

/// Number of line feeds in `s`.
pub open spec fn newline_count(s: Seq<char>) -> nat
    decreases s.len(),
{
    if s.len() == 0 {
        0
    } else {
        newline_count(s.drop_last()) + if s.last() == '\n' { 1nat } else { 0nat }
    }
}

/// One grapheme cluster of a styled text, with its measurements.
#[derive(Clone, Debug)]
pub struct Token {
    pub symbol: String,
    /// Display width in columns.
    pub width: u16,
    /// Number of line feeds the cluster holds; a cluster with any is a line break.
    pub newlines: u16,
    pub style: Style,
    /// Whether the cluster opens a run.
    pub run_start: bool,
}

/// What a grapheme cluster `g` of a run styled `style` becomes.
pub open spec fn token_of(t: Token, g: Seq<char>, style: Style, first: bool) -> bool {
    &&& t.symbol@ == g
    &&& t.width == sat16(display_width(g) as int)
    &&& t.newlines == sat16(newline_count(g) as int)
    &&& t.style == style
    &&& t.run_start == first
}

/// What layout reads of a cluster: its width, its line feeds, and whether it opens a run.
pub struct Metric {
    pub width: u16,
    pub newlines: u16,
    pub run_start: bool,
}

impl Token {
    pub open spec fn metric(self) -> Metric {
        Metric { width: self.width, newlines: self.newlines, run_start: self.run_start }
    }
}

/// A cluster as drawing sees it: its text, style and metrics.
pub struct Glyph {
    pub symbol: Seq<char>,
    pub style: Style,
    pub width: u16,
    pub newlines: u16,
    pub run_start: bool,
}

impl Glyph {
    pub open spec fn metric(self) -> Metric {
        Metric { width: self.width, newlines: self.newlines, run_start: self.run_start }
    }
}

impl Token {
    pub open spec fn glyph(self) -> Glyph {
        Glyph { symbol: self.symbol@, style: self.style, width: self.width, newlines: self.newlines, run_start: self.run_start }
    }
}

/// The glyphs of a sequence of clusters.
pub open spec fn glyphs(toks: Seq<Token>) -> Seq<Glyph> {
    toks.map_values(|t: Token| t.glyph())
}

/// The metrics of a sequence of glyphs.
pub open spec fn glyph_metrics(gs: Seq<Glyph>) -> Seq<Metric> {
    gs.map_values(|g: Glyph| g.metric())
}

/// The metrics of a sequence of clusters.
pub open spec fn metrics(toks: Seq<Token>) -> Seq<Metric> {
    toks.map_values(|t: Token| t.metric())
}

/// The clusters of a sequence of runs, each with its style and whether it opens its run.
pub open spec fn runs_clusters(runs: Seq<(Seq<char>, Style)>) -> Seq<(Seq<char>, Style, bool)>
    decreases runs.len(),
{
    if runs.len() == 0 {
        seq![]
    } else {
        let (text, style) = runs.last();
        runs_clusters(runs.drop_last()) + graphemes_of(text).map(
            |i: int, g: Seq<char>| (g, style, i == 0),
        )
    }
}

/// The layout cursor: column, row, and whether the previous cluster was a line break.
pub struct Cursor {
    pub dx: int,
    pub dy: int,
    pub after_break: bool,
}

/// Where a visible cluster of width `t.width` goes when the cursor is at `c`
/// in an area `w` columns wide: it wraps to a new row if it does not fit.
pub open spec fn place(c: Cursor, t: Metric, w: int) -> (int, int) {
    if t.width + c.dx > w {
        (0, sat16(c.dy + 1))
    } else {
        (c.dx, c.dy)
    }
}

/// The cursor after one cluster. A line break moves down by its number of
/// line feeds, less one when it comes at column 0 right after another line break
/// (so that breaks in a row leave no double blank lines); a visible cluster
/// advances past its width.
pub open spec fn step(c: Cursor, t: Metric, w: int) -> Cursor {
    if t.newlines > 0 {
        let down = if c.dx == 0 && c.after_break { t.newlines - 1 } else { t.newlines as int };
        Cursor { dx: 0, dy: sat16(c.dy + down), after_break: true }
    } else {
        let (x, y) = place(c, t, w);
        Cursor { dx: x + t.width, dy: y, after_break: false }
    }
}

/// The cursor after laying out `toks` in an area `w` columns wide.
pub open spec fn cursor_after(toks: Seq<Metric>, w: int) -> Cursor
    decreases toks.len(),
{
    if toks.len() == 0 {
        Cursor { dx: 0, dy: 0, after_break: false }
    } else {
        step(cursor_after(toks.drop_last(), w), toks.last(), w)
    }
}

/// Number of rows `toks` take when wrapped to `w` columns.
pub open spec fn text_height(toks: Seq<Metric>, w: int) -> int {
    sat16(cursor_after(toks, w).dy + 1)
}

/// The position (column, row) of cluster `i` of `toks`, laid out `w` columns wide.
pub open spec fn glyph_pos(toks: Seq<Metric>, i: int, w: int) -> (int, int) {
    place(cursor_after(toks.take(i), w), toks[i], w)
}

/// Cells after writing continuation cells `1 .. k` right of `(x, y)`.
pub open spec fn write_cont(
    cells: Seq<(Seq<char>, Style)>,
    ba: Rect,
    x: int,
    y: int,
    style: Style,
    k: int,
) -> Seq<(Seq<char>, Style)>
    decreases k,
{
    if k <= 1 {
        cells
    } else {
        written(write_cont(cells, ba, x, y, style, k - 1), ba, x + k - 1, y, (seq![], style))
    }
}

/// Cells after drawing one cluster, with the cursor at `c`, into `area` of a grid over `ba`.
/// Line breaks write nothing; a visible cluster below the area's last row, or starting
/// past its last column, is dropped; a cluster wider than the area is cut at its right edge.
pub open spec fn paint_token(
    cells: Seq<(Seq<char>, Style)>,
    ba: Rect,
    area: Rect,
    c: Cursor,
    t: Glyph,
) -> Seq<(Seq<char>, Style)> {
    if t.newlines > 0 {
        cells
    } else {
        let p = place(c, t.metric(), area.width as int);
        if p.1 >= area.height || p.0 >= area.width {
            cells
        } else {
            let x = area.x + p.0;
            let y = area.y + p.1;
            let room = area.width - p.0;
            write_cont(written(cells, ba, x, y, (t.symbol, t.style)), ba, x, y, t.style, if t.width > room { room } else { t.width as int })
        }
    }
}

/// Cells after drawing `toks` into `area` of a grid over `ba`.
pub open spec fn paint(cells: Seq<(Seq<char>, Style)>, ba: Rect, area: Rect, toks: Seq<Glyph>) -> Seq<
    (Seq<char>, Style),
>
    decreases toks.len(),
{
    if toks.len() == 0 || area.width == 0 {
        cells
    } else {
        paint_token(
            paint(cells, ba, area, toks.drop_last()),
            ba,
            area,
            cursor_after(glyph_metrics(toks.drop_last()), area.width as int),
            toks.last(),
        )
    }
}

/// A sequence of styled runs, kept as measured grapheme clusters.
pub struct CJKText {
    pub tokens: Vec<Token>,
    /// Display width of each run, in columns.
    pub run_widths: Vec<u16>,
}

/// Display width of the runs together on one line, capped at the largest coordinate.
pub open spec fn sum_widths(ws: Seq<u16>) -> int
    decreases ws.len(),
{
    if ws.len() == 0 {
        0
    } else {
        sat16(sum_widths(ws.drop_last()) + ws.last())
    }
}

fn cap16(n: usize) -> (r: u16)
    ensures
        r == sat16(n as int),
{
    if n > 65535 {
        COORD_MAX
    } else {
        n as u16
    }
}

fn count_newlines(s: &str) -> (r: usize)
    ensures
        r == newline_count(s@),
{
    let n = s.unicode_len();
    let mut i: usize = 0;
    let mut c: usize = 0;
    while i < n
        invariant
            n == s@.len(),
            i <= n,
            c == newline_count(s@.take(i as int)),
            c <= i,
        decreases n - i,
    {
        assert(s@.take(i + 1).drop_last() == s@.take(i as int));
        if s.get_char(i) == '\n' {
            c = c + 1;
        }
        i = i + 1;
    }
    assert(s@.take(n as int) == s@);
    c
}

impl CJKText {
    /// Appends the clusters of one run.
    fn push_run(&mut self, text: &str, style: Style)
        ensures
            final(self).tokens@.len() == old(self).tokens@.len() + graphemes_of(text@).len(),
            forall|i: int| 0 <= i < old(self).tokens@.len() ==> #[trigger] final(self).tokens@[i] == old(self).tokens@[i],
            forall|i: int|
                0 <= i < graphemes_of(text@).len() ==> token_of(
                    #[trigger] final(self).tokens@[old(self).tokens@.len() + i],
                    graphemes_of(text@)[i],
                    style,
                    i == 0,
                ),
            final(self).run_widths@ == old(self).run_widths@.push(sat16(display_width(text@) as int) as u16),
    {
        let gs = split_graphemes(text);
        let ghost base = self.tokens@.len();
        let mut j: usize = 0;
        while j < gs.len()
            invariant
                0 <= j <= gs@.len(),
                gs@.len() == graphemes_of(text@).len(),
                forall|i: int| 0 <= i < gs@.len() ==> #[trigger] gs@[i]@ == graphemes_of(text@)[i],
                self.tokens@.len() == base + j,
                base == old(self).tokens@.len(),
                self.run_widths@ == old(self).run_widths@,
                forall|i: int| 0 <= i < base ==> #[trigger] self.tokens@[i] == old(self).tokens@[i],
                forall|i: int|
                    0 <= i < j ==> token_of(
                        #[trigger] self.tokens@[base + i],
                        graphemes_of(text@)[i],
                        style,
                        i == 0,
                    ),
            decreases gs@.len() - j,
        {
            let g = &gs[j];
            let width = cap16(str_width(g.as_str()));
            let newlines = cap16(count_newlines(g.as_str()));
            self.tokens.push(Token { symbol: g.clone(), width, newlines, style, run_start: j == 0 });
            j = j + 1;
        }
        let w = cap16(str_width(text));
        self.run_widths.push(w);
    }

    pub open spec fn holds_runs(&self, runs: Seq<(Seq<char>, Style)>) -> bool {
        let cs = runs_clusters(runs);
        &&& self.tokens@.len() == cs.len()
        &&& forall|i: int| 0 <= i < cs.len() ==> token_of(#[trigger] self.tokens@[i], cs[i].0, cs[i].1, cs[i].2)
        &&& self.run_widths@.len() == runs.len()
        &&& forall|i: int| 0 <= i < runs.len() ==> #[trigger] self.run_widths@[i] == sat16(display_width(runs[i].0) as int)
    }

    /// A text of one run in the default style.
    pub fn new(text: &str) -> (r: CJKText)
        ensures
            r.holds_runs(seq![(text@, Style::plain_spec())]),
    {
        let mut r = CJKText { tokens: Vec::new(), run_widths: Vec::new() };
        r.push_run(text, Style::plain());
        proof {
            let runs = seq![(text@, Style::plain_spec())];
            assert(runs.drop_last() =~= Seq::<(Seq<char>, Style)>::empty());
            assert(runs_clusters(runs.drop_last()) =~= seq![]);
            let cs = runs_clusters(runs);
            assert(cs =~= graphemes_of(text@).map(|i: int, g: Seq<char>| (g, Style::plain_spec(), i == 0)));
            assert forall|i: int| 0 <= i < cs.len() implies token_of(#[trigger] r.tokens@[i], cs[i].0, cs[i].1, cs[i].2) by {
                assert(r.tokens@[0 + i] == r.tokens@[i]);
            }
        }
        r
    }

    /// A text made of the given runs, in order.
    pub fn raw(runs: Vec<(String, Style)>) -> (r: CJKText)
        ensures
            r.holds_runs(runs@.map_values(|p: (String, Style)| (p.0@, p.1))),
    {
        let ghost rv = runs@.map_values(|p: (String, Style)| (p.0@, p.1));
        let mut r = CJKText { tokens: Vec::new(), run_widths: Vec::new() };
        let mut k: usize = 0;
        while k < runs.len()
            invariant
                0 <= k <= runs@.len(),
                rv == runs@.map_values(|p: (String, Style)| (p.0@, p.1)),
                r.holds_runs(rv.take(k as int)),
            decreases runs@.len() - k,
        {
            let ghost before = r;
            r.push_run(runs[k].0.as_str(), runs[k].1);
            proof {
                let pre = rv.take(k as int);
                let cur = rv.take(k + 1);
                assert(cur.drop_last() =~= pre);
                assert(cur.last() == (runs@[k as int].0@, runs@[k as int].1));
                let cs0 = runs_clusters(pre);
                let text = runs@[k as int].0@;
                let style = runs@[k as int].1;
                let cs = runs_clusters(cur);
                assert(cs == cs0 + graphemes_of(text).map(|i: int, g: Seq<char>| (g, style, i == 0)));
                assert forall|i: int| 0 <= i < cs.len() implies token_of(#[trigger] r.tokens@[i], cs[i].0, cs[i].1, cs[i].2) by {
                    if i < cs0.len() {
                        assert(before.tokens@[i] == r.tokens@[i]);
                    } else {
                        let j = i - cs0.len();
                        assert(r.tokens@[cs0.len() + j] == r.tokens@[i]);
                    }
                }
                assert forall|i: int| 0 <= i < cur.len() implies #[trigger] r.run_widths@[i] == sat16(display_width(cur[i].0) as int) by {
                    if i < k {
                        assert(cur[i] == pre[i]);
                    }
                }
            }
            k = k + 1;
        }
        assert(rv.take(runs@.len() as int) =~= rv);
        r
    }

    /// Display width of the whole text on a single line, capped at the largest coordinate.
    pub fn oneline_min_width(&self) -> (r: u16)
        ensures
            r == sum_widths(self.run_widths@),
    {
        let mut acc: u16 = 0;
        let mut i: usize = 0;
        while i < self.run_widths.len()
            invariant
                0 <= i <= self.run_widths@.len(),
                acc == sum_widths(self.run_widths@.take(i as int)),
            decreases self.run_widths@.len() - i,
        {
            assert(self.run_widths@.take(i + 1).drop_last() =~= self.run_widths@.take(i as int));
            acc = acc.saturating_add(self.run_widths[i]);
            i = i + 1;
        }
        assert(self.run_widths@.take(self.run_widths@.len() as int) =~= self.run_widths@);
        acc
    }

    /// Gives every run the same style.
    pub fn set_style(&mut self, style: Style)
        ensures
            final(self).run_widths@ == old(self).run_widths@,
            final(self).tokens@.len() == old(self).tokens@.len(),
            forall|i: int|
                0 <= i < old(self).tokens@.len() ==> #[trigger] final(self).tokens@[i] == (Token { style, ..old(self).tokens@[i] }),
    {
        let mut i: usize = 0;
        while i < self.tokens.len()
            invariant
                0 <= i <= self.tokens@.len(),
                self.tokens@.len() == old(self).tokens@.len(),
                self.run_widths@ == old(self).run_widths@,
                forall|j: int| 0 <= j < i ==> #[trigger] self.tokens@[j] == (Token { style, ..old(self).tokens@[j] }),
                forall|j: int| i <= j < self.tokens@.len() ==> #[trigger] self.tokens@[j] == old(self).tokens@[j],
            decreases self.tokens@.len() - i,
        {
            let old_t = &self.tokens[i];
            let t = Token {
                symbol: old_t.symbol.clone(),
                width: old_t.width,
                newlines: old_t.newlines,
                style,
                run_start: old_t.run_start,
            };
            self.tokens.set(i, t);
            i = i + 1;
        }
    }
}

impl CJKText {
    /// Number of rows the text takes when wrapped to `width` columns.
    pub fn height(&self, width: u16) -> (r: u16)
        ensures
            r == text_height(metrics(self.tokens@), width as int),
    {
        let mut dx: u16 = 0;
        let mut dy: u16 = 0;
        let mut after_break = false;
        let mut i: usize = 0;
        while i < self.tokens.len()
            invariant
                0 <= i <= self.tokens@.len(),
                cursor_after(metrics(self.tokens@.take(i as int)), width as int) == (Cursor {
                    dx: dx as int,
                    dy: dy as int,
                    after_break,
                }),
            decreases self.tokens@.len() - i,
        {
            assert(self.tokens@.take(i + 1).drop_last() =~= self.tokens@.take(i as int));
            assert(metrics(self.tokens@.take(i + 1)).drop_last() =~= metrics(self.tokens@.take(i as int)));
            let t = &self.tokens[i];
            if t.newlines > 0 {
                let down = if dx == 0 && after_break { t.newlines - 1 } else { t.newlines };
                dy = dy.saturating_add(down);
                dx = 0;
                after_break = true;
            } else {
                if t.width as u32 + dx as u32 > width as u32 {
                    dx = t.width;
                    dy = dy.saturating_add(1);
                } else {
                    dx = dx + t.width;
                }
                after_break = false;
            }
            i = i + 1;
        }
        assert(self.tokens@.take(self.tokens@.len() as int) =~= self.tokens@);
        dy.saturating_add(1)
    }

    /// Draws the text into `area` of `buf`, wrapping at the area's width; glyphs
    /// that would fall below the area are dropped. Nothing is drawn into a zero-width area.
    pub fn draw(&self, area: Rect, buf: &mut Buffer)
        requires
            old(buf).wf(),
        ensures
            final(buf).wf(),
            final(buf).area == old(buf).area,
            final(buf).cells() == paint(old(buf).cells(), old(buf).area, area, glyphs(self.tokens@)),
    {
        if area.width == 0 {
            return;
        }
        let ghost ba = buf.area;
        let ghost w = area.width as int;
        let mut dx: u16 = 0;
        let mut dy: u16 = 0;
        let mut after_break = false;
        let mut i: usize = 0;
        while i < self.tokens.len()
            invariant
                0 <= i <= self.tokens@.len(),
                area.width > 0,
                w == area.width,
                buf.wf(),
                buf.area == ba,
                ba == old(buf).area,
                cursor_after(metrics(self.tokens@.take(i as int)), w) == (Cursor {
                    dx: dx as int,
                    dy: dy as int,
                    after_break,
                }),
                buf.cells() == paint(old(buf).cells(), ba, area, glyphs(self.tokens@.take(i as int))),
            decreases self.tokens@.len() - i,
        {
            let ghost pre = self.tokens@.take(i as int);
            assert(self.tokens@.take(i + 1).drop_last() =~= pre);
            assert(metrics(self.tokens@.take(i + 1)).drop_last() =~= metrics(pre));
            let ghost c = Cursor { dx: dx as int, dy: dy as int, after_break };
            let ghost prev = buf.cells();
            let t = &self.tokens[i];
            assert(self.tokens@.take(i + 1).last() == *t);
            assert(glyphs(self.tokens@.take(i + 1)).drop_last() =~= glyphs(pre));
            assert(glyph_metrics(glyphs(pre)) =~= metrics(pre));
            assert(paint(old(buf).cells(), ba, area, glyphs(self.tokens@.take(i + 1))) == paint_token(prev, ba, area, c, t.glyph()));
            if t.newlines > 0 {
                let down = if dx == 0 && after_break { t.newlines - 1 } else { t.newlines };
                dy = dy.saturating_add(down);
                dx = 0;
                after_break = true;
            } else {
                if t.width as u32 + dx as u32 > area.width as u32 {
                    dx = 0;
                    dy = dy.saturating_add(1);
                }
                if dy < area.height && dx < area.width {
                    let x = area.x as u32 + dx as u32;
                    let y = area.y as u32 + dy as u32;
                    buf.set(x, y, Cell { symbol: t.symbol.clone(), style: t.style });
                    let ghost base = buf.cells();
                    let room: u16 = area.width - dx;
                    let n: u16 = if t.width > room { room } else { t.width };
                    let mut k: u16 = 1;
                    while k < n
                        invariant
                            1 <= k,
                            k <= n || k == 1,
                            x < 0x20000,
                            buf.wf(),
                            buf.area == ba,
                            buf.cells() == write_cont(base, ba, x as int, y as int, t.style, k as int),
                        decreases n - k,
                    {
                        buf.set(x + k as u32, y, Cell { symbol: String::new(), style: t.style });
                        k = k + 1;
                    }
                    proof {
                        if n == 0 {
                            assert(write_cont(base, ba, x as int, y as int, t.style, 1) == base);
                            assert(write_cont(base, ba, x as int, y as int, t.style, 0) == base);
                        } else {
                            assert(k == n);
                        }
                    }
                }
                dx = dx + t.width;
                after_break = false;
            }
            i = i + 1;
        }
        assert(self.tokens@.take(self.tokens@.len() as int) =~= self.tokens@);
    }
}

/// The layout row stays within the coordinate range.
pub proof fn lemma_row_range(toks: Seq<Metric>, w: int)
    ensures
        0 <= cursor_after(toks, w).dy <= COORD_MAX,
        0 <= cursor_after(toks, w).dx,
    decreases toks.len(),
{
    if toks.len() > 0 {
        lemma_row_range(toks.drop_last(), w);
    }
}

/// Rows never go back up along a layout.
proof fn lemma_rows_grow(toks: Seq<Metric>, w: int, i: int, j: int)
    requires
        0 <= i <= j <= toks.len(),
    ensures
        cursor_after(toks.take(i), w).dy <= cursor_after(toks.take(j), w).dy,
    decreases j - i,
{
    if i < j {
        lemma_rows_grow(toks, w, i, j - 1);
        assert(toks.take(j).drop_last() =~= toks.take(j - 1));
        lemma_row_range(toks.take(j - 1), w);
    }
}

/// Measuring and drawing agree: laid out `w` columns wide, every visible glyph of
/// a text lands on a row below `height(w)`, so drawing into an area `w` wide and
/// `height(w)` tall writes every glyph; and when the text ends with a visible
/// glyph, that glyph sits on the last of those rows. (Heights at the largest
/// coordinate are capped and left out.)
pub proof fn lemma_height_matches_draw(text: CJKText, w: u16, i: int)
    requires
        0 <= i < text.tokens@.len(),
        text.tokens@[i].newlines == 0,
        text_height(metrics(text.tokens@), w as int) < COORD_MAX,
    ensures
        0 <= glyph_pos(metrics(text.tokens@), i, w as int).1 < text_height(metrics(text.tokens@), w as int),
        i == text.tokens@.len() - 1 ==> glyph_pos(metrics(text.tokens@), i, w as int).1 == text_height(
            metrics(text.tokens@),
            w as int,
        ) - 1,
        forall|area: Rect|
            area.width == w && area.height >= text_height(metrics(text.tokens@), w as int) ==> glyph_pos(
                metrics(text.tokens@),
                i,
                area.width as int,
            ).1 < area.height,
{
    let toks = metrics(text.tokens@);
    let n = toks.len() as int;
    assert(toks.take(i + 1).drop_last() =~= toks.take(i));
    assert(toks.take(i + 1).last() == toks[i]);
    lemma_row_range(toks.take(i), w as int);
    lemma_rows_grow(toks, w as int, i + 1, n);
    assert(toks.take(n) =~= toks);
}

/// The metrics of the clusters of a sequence of runs.
pub open spec fn runs_metrics(runs: Seq<(Seq<char>, Style)>) -> Seq<Metric> {
    runs_clusters(runs).map_values(
        |c: (Seq<char>, Style, bool)|
            Metric {
                width: sat16(display_width(c.0) as int) as u16,
                newlines: sat16(newline_count(c.0) as int) as u16,
                run_start: c.2,
            },
    )
}

/// The glyphs of a sequence of runs.
pub open spec fn runs_glyphs(runs: Seq<(Seq<char>, Style)>) -> Seq<Glyph> {
    runs_clusters(runs).map_values(
        |c: (Seq<char>, Style, bool)|
            Glyph {
                symbol: c.0,
                style: c.1,
                width: sat16(display_width(c.0) as int) as u16,
                newlines: sat16(newline_count(c.0) as int) as u16,
                run_start: c.2,
            },
    )
}

/// Number of rows the runs take when wrapped to `w` columns.
pub open spec fn runs_height(runs: Seq<(Seq<char>, Style)>, w: int) -> int {
    text_height(runs_metrics(runs), w)
}

impl CJKText {
    /// A text built from `runs` lays out as the runs do.
    pub proof fn lemma_metrics_of_runs(&self, runs: Seq<(Seq<char>, Style)>)
        requires
            self.holds_runs(runs),
        ensures
            metrics(self.tokens@) == runs_metrics(runs),
    {
        let cs = runs_clusters(runs);
        assert forall|i: int| 0 <= i < cs.len() implies #[trigger] metrics(self.tokens@)[i] == runs_metrics(runs)[i] by {
            assert(token_of(self.tokens@[i], cs[i].0, cs[i].1, cs[i].2));
        }
        assert(metrics(self.tokens@) =~= runs_metrics(runs));
    }

    /// A text built from `runs` draws as the runs do.
    pub proof fn lemma_glyphs_of_runs(&self, runs: Seq<(Seq<char>, Style)>)
        requires
            self.holds_runs(runs),
        ensures
            glyphs(self.tokens@) == runs_glyphs(runs),
            glyph_metrics(runs_glyphs(runs)) == runs_metrics(runs),
    {
        let cs = runs_clusters(runs);
        assert forall|i: int| 0 <= i < cs.len() implies #[trigger] glyphs(self.tokens@)[i] == runs_glyphs(runs)[i] by {
            assert(token_of(self.tokens@[i], cs[i].0, cs[i].1, cs[i].2));
        }
        assert(glyphs(self.tokens@) =~= runs_glyphs(runs));
        assert(glyph_metrics(runs_glyphs(runs)) =~= runs_metrics(runs));
    }
}

/// Distinct cells inside the grid's area sit at distinct places in its storage.
proof fn lemma_index_injective(ba: Rect, x1: int, y1: int, x2: int, y2: int)
    requires
        ba.contains_spec(x1, y1),
        ba.contains_spec(x2, y2),
        cell_index(ba, x1, y1) == cell_index(ba, x2, y2),
    ensures
        x1 == x2 && y1 == y2,
{
    let w = ba.width as int;
    let (a1, b1, a2, b2) = (y1 - ba.y, x1 - ba.x, y2 - ba.y, x2 - ba.x);
    assert(a1 == a2) by (nonlinear_arith)
        requires
            0 <= b1 < w,
            0 <= b2 < w,
            0 <= a1,
            0 <= a2,
            a1 * w + b1 == a2 * w + b2,
    {
        if a1 < a2 {
            assert(a1 * w + w <= a2 * w);
        } else if a2 < a1 {
            assert(a2 * w + w <= a1 * w);
        }
    }
}

/// A write elsewhere leaves a cell inside the grid as it was.
proof fn lemma_written_elsewhere(cells: Seq<(Seq<char>, Style)>, ba: Rect, x: int, y: int, c: (Seq<char>, Style), px: int, py: int)
    requires
        ba.contains_spec(px, py),
        cells.len() == ba.width * ba.height,
        !(x == px && y == py),
    ensures
        written(cells, ba, x, y, c).len() == cells.len(),
        written(cells, ba, x, y, c)[cell_index(ba, px, py)] == cells[cell_index(ba, px, py)],
{
    crate::buffer::lemma_index_in_bounds(ba, px, py);
    if ba.contains_spec(x, y) {
        crate::buffer::lemma_index_in_bounds(ba, x, y);
        if cell_index(ba, x, y) == cell_index(ba, px, py) {
            lemma_index_injective(ba, x, y, px, py);
        }
    }
}

/// Continuation cells right of `(x, y)` leave every cell not right of it on that row alone.
proof fn lemma_cont_elsewhere(cells: Seq<(Seq<char>, Style)>, ba: Rect, x: int, y: int, st: Style, k: int, px: int, py: int)
    requires
        ba.contains_spec(px, py),
        cells.len() == ba.width * ba.height,
        py != y || px <= x,
    ensures
        write_cont(cells, ba, x, y, st, k).len() == cells.len(),
        write_cont(cells, ba, x, y, st, k)[cell_index(ba, px, py)] == cells[cell_index(ba, px, py)],
    decreases k,
{
    if k > 1 {
        lemma_cont_elsewhere(cells, ba, x, y, st, k - 1, px, py);
        lemma_written_elsewhere(write_cont(cells, ba, x, y, st, k - 1), ba, x + k - 1, y, (seq![], st), px, py);
    }
}

/// The layout cursor stays past every visible cluster already laid out: on a later
/// row, or on its row at or right of its last column.
proof fn lemma_cursor_past(ms: Seq<Metric>, w: int, i: int, j: int)
    requires
        0 <= i < j <= ms.len(),
        ms[i].newlines == 0,
        ms[i].width >= 1,
        cursor_after(ms, w).dy < COORD_MAX,
    ensures
        ({
            let p = glyph_pos(ms, i, w);
            let c = cursor_after(ms.take(j), w);
            c.dy > p.1 || (c.dy == p.1 && c.dx >= p.0 + ms[i].width)
        }),
    decreases j - i,
{
    assert(ms.take(i + 1).drop_last() =~= ms.take(i));
    assert(ms.take(i + 1).last() == ms[i]);
    lemma_row_range(ms.take(i), w);
    if j > i + 1 {
        lemma_cursor_past(ms, w, i, j - 1);
        assert(ms.take(j).drop_last() =~= ms.take(j - 1));
        assert(ms.take(j).last() == ms[j - 1]);
        lemma_rows_grow(ms, w, j, ms.len() as int);
        assert(ms.take(ms.len() as int) =~= ms);
        lemma_row_range(ms.take(j - 1), w);
    }
}

proof fn lemma_written_len(cells: Seq<(Seq<char>, Style)>, ba: Rect, x: int, y: int, c: (Seq<char>, Style))
    requires
        cells.len() == ba.width * ba.height,
    ensures
        written(cells, ba, x, y, c).len() == cells.len(),
{
    if ba.contains_spec(x, y) {
        crate::buffer::lemma_index_in_bounds(ba, x, y);
    }
}

proof fn lemma_cont_len(cells: Seq<(Seq<char>, Style)>, ba: Rect, x: int, y: int, st: Style, k: int)
    requires
        cells.len() == ba.width * ba.height,
    ensures
        write_cont(cells, ba, x, y, st, k).len() == cells.len(),
    decreases k,
{
    if k > 1 {
        lemma_cont_len(cells, ba, x, y, st, k - 1);
        lemma_written_len(write_cont(cells, ba, x, y, st, k - 1), ba, x + k - 1, y, (seq![], st));
    }
}

proof fn lemma_paint_len(cells: Seq<(Seq<char>, Style)>, ba: Rect, area: Rect, gs: Seq<Glyph>)
    requires
        cells.len() == ba.width * ba.height,
    ensures
        paint(cells, ba, area, gs).len() == cells.len(),
    decreases gs.len(),
{
    if gs.len() > 0 && area.width > 0 {
        lemma_paint_len(cells, ba, area, gs.drop_last());
        let prev = paint(cells, ba, area, gs.drop_last());
        let c = cursor_after(glyph_metrics(gs.drop_last()), area.width as int);
        let t = gs.last();
        let p = place(c, t.metric(), area.width as int);
        let x = area.x + p.0;
        let y = area.y + p.1;
        let room = area.width - p.0;
        lemma_written_len(prev, ba, x, y, (t.symbol, t.style));
        lemma_cont_len(written(prev, ba, x, y, (t.symbol, t.style)), ba, x, y, t.style, if t.width > room { room } else { t.width as int });
    }
}

/// `area` lies inside the grid's area.
pub open spec fn inside(area: Rect, ba: Rect) -> bool {
    &&& ba.x <= area.x
    &&& ba.y <= area.y
    &&& area.x + area.width <= ba.x + ba.width
    &&& area.y + area.height <= ba.y + ba.height
}

/// Once drawn, a visible glyph keeps its cell while the rest of the text is drawn.
proof fn lemma_glyph_kept(cells: Seq<(Seq<char>, Style)>, ba: Rect, area: Rect, gs: Seq<Glyph>, i: int, n: int)
    requires
        0 <= i < n <= gs.len(),
        gs[i].newlines == 0,
        1 <= gs[i].width <= area.width,
        cursor_after(glyph_metrics(gs), area.width as int).dy < COORD_MAX,
        glyph_pos(glyph_metrics(gs), i, area.width as int).1 < area.height,
        inside(area, ba),
        cells.len() == ba.width * ba.height,
    ensures
        ({
            let p = glyph_pos(glyph_metrics(gs), i, area.width as int);
            paint(cells, ba, area, gs.take(n))[cell_index(ba, area.x + p.0, area.y + p.1)] == (gs[i].symbol, gs[i].style)
        }),
    decreases n,
{
    let w = area.width as int;
    let ms = glyph_metrics(gs);
    let p = glyph_pos(ms, i, w);
    let px = area.x + p.0;
    let py = area.y + p.1;
    let j = n - 1;
    let pre = gs.take(j);
    assert(gs.take(n).drop_last() =~= pre);
    assert(gs.take(n).last() == gs[j]);
    assert(glyph_metrics(pre) =~= ms.take(j));
    lemma_paint_len(cells, ba, area, pre);
    let prev = paint(cells, ba, area, pre);
    let c = cursor_after(ms.take(j), w);
    let t = gs[j];
    let q = place(c, t.metric(), w);
    let x = area.x + q.0;
    let y = area.y + q.1;
    let room = w - q.0;
    let k = if t.width > room { room } else { t.width as int };
    lemma_row_range(ms.take(i), w);
    assert(p.0 + gs[i].width <= w || p.0 == 0);
    assert(ba.contains_spec(px, py));
    if j == i {
        crate::buffer::lemma_index_in_bounds(ba, px, py);
        lemma_cont_elsewhere(written(prev, ba, x, y, (t.symbol, t.style)), ba, x, y, t.style, k, px, py);
    } else {
        lemma_glyph_kept(cells, ba, area, gs, i, j);
        lemma_cursor_past(ms, w, i, j);
        lemma_rows_grow(ms, w, j, ms.len() as int);
        assert(ms.take(ms.len() as int) =~= ms);
        if t.newlines == 0 && q.1 < area.height && q.0 < area.width {
            lemma_written_elsewhere(prev, ba, x, y, (t.symbol, t.style), px, py);
            lemma_cont_elsewhere(written(prev, ba, x, y, (t.symbol, t.style)), ba, x, y, t.style, k, px, py);
        }
    }
}

/// Drawing a text into an area as wide as it was measured at and as tall as its
/// height writes every visible glyph (of width between one and the area's width)
/// into the cell its layout gives, inside the area: nothing measured is lost in
/// drawing. (Heights at the largest coordinate are capped and left out.)
pub proof fn lemma_draw_writes_every_glyph(text: CJKText, cells: Seq<(Seq<char>, Style)>, ba: Rect, area: Rect, i: int)
    requires
        0 <= i < text.tokens@.len(),
        text.tokens@[i].newlines == 0,
        1 <= text.tokens@[i].width <= area.width,
        text_height(metrics(text.tokens@), area.width as int) < COORD_MAX,
        area.height >= text_height(metrics(text.tokens@), area.width as int),
        inside(area, ba),
        cells.len() == ba.width * ba.height,
    ensures
        ({
            let p = glyph_pos(metrics(text.tokens@), i, area.width as int);
            &&& 0 <= p.0 < area.width
            &&& 0 <= p.1 < area.height
            &&& paint(cells, ba, area, glyphs(text.tokens@))[cell_index(ba, area.x + p.0, area.y + p.1)] == (
                text.tokens@[i].symbol@,
                text.tokens@[i].style,
            )
        }),
{
    let gs = glyphs(text.tokens@);
    let w = area.width as int;
    assert(glyph_metrics(gs) =~= metrics(text.tokens@));
    lemma_height_matches_draw(text, area.width, i);
    let ms = metrics(text.tokens@);
    assert(ms.take(i + 1).drop_last() =~= ms.take(i));
    assert(ms.take(i + 1).last() == ms[i]);
    lemma_row_range(ms.take(i), w);
    lemma_glyph_kept(cells, ba, area, gs, i, gs.len() as int);
    assert(gs.take(gs.len() as int) =~= gs);
}

} // verus!
