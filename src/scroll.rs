use vstd::prelude::*;
use crate::focus::ScrollState;
use crate::geometry::Rect;
use crate::input::MouseButton;
use crate::buffer::{Buffer, Cell, written};
use crate::style::Style;
use crate::text::{sat16, COORD_MAX};
use crate::widgets::{Cells, Widget};

verus! {

/// What a pointer event on a scroll container means.
#[derive(Clone, Copy, Debug, PartialEq, Eq, Structural)]
pub enum ScrollEvent {
    ScrollTo(u16),
    ScrollUp,
    ScrollDown,
    Sub(usize),
}

/// Total height of `ws` at `width` columns.
pub open spec fn heights_sum(ws: Seq<Widget>, width: int) -> int
    decreases ws.len(),
{
    if ws.len() == 0 {
        0
    } else {
        heights_sum(ws.drop_last(), width) + ws.last().height_spec(width)
    }
}

/// The offset after a resize: zero when everything fits, pulled back so that no
/// blank space shows below the content, unchanged otherwise.
pub open spec fn capped_offset(h: int, vh: int, off: int) -> int {
    if h <= vh {
        0
    } else if h <= vh + off {
        h - vh
    } else {
        off
    }
}

/// The offset that brings the rows `[start, end)` into a viewport `vh` rows tall at
/// offset `off`: scrolled up to `start` if it is above, down so that `end` is the
/// last row if it is below, unchanged if it shows.
pub open spec fn into_view_offset(start: int, end: int, off: int, vh: int) -> int {
    if start < off {
        start
    } else if end > off + vh {
        end - vh
    } else {
        off
    }
}

/// The offset a click on row `pos` of a scroll bar `vh` rows tall asks for, with
/// content `h` rows tall.
pub open spec fn scrollbar_target(pos: int, h: int, vh: int) -> int {
    if pos == 0 {
        0
    } else if pos >= vh - 1 {
        h - vh
    } else {
        pos * (h - vh) / (vh - 2)
    }
}

/// Index of the child of `ws` that covers row `y` of the content, or -1.
pub open spec fn hit_child(ws: Seq<Widget>, width: int, y: int) -> int
    decreases ws.len(),
{
    if ws.len() == 0 {
        -1
    } else if ws[0].height_spec(width) > y {
        0
    } else {
        let r = hit_child(ws.drop_first(), width, y - ws[0].height_spec(width));
        if r < 0 {
            -1
        } else {
            r + 1
        }
    }
}

/// A vertically scrolled column of children, drawn in a bound rectangle whose last
/// column holds a scroll bar.
pub struct Scroll {
    pub content: Vec<Widget>,
    pub bound: Rect,
    pub scroll: ScrollState,
}

impl Scroll {
    /// Columns left to the children: the bound's width less the scroll bar column.
    pub open spec fn content_width(&self) -> int {
        if self.bound.width == 0 {
            0
        } else {
            self.bound.width - 1
        }
    }

    /// Total height of the children at `width` columns, capped at the largest coordinate.
    pub open spec fn inner_height_spec(&self, width: int) -> int {
        if width == 0 {
            0
        } else {
            sat16(heights_sum(self.content@, width))
        }
    }

    /// First row of child `i`.
    pub open spec fn child_start(&self, i: int) -> int {
        sat16(heights_sum(self.content@.take(i), self.content_width()))
    }

    /// One past the last row of child `i`.
    pub open spec fn child_end(&self, i: int) -> int {
        sat16(self.child_start(i) + self.content@[i].height_spec(self.content_width()))
    }

    /// An empty container at offset `scroll`.
    pub fn with(scroll: ScrollState) -> (r: Scroll)
        ensures
            r.content@.len() == 0,
            r.scroll == scroll,
            r.bound == (Rect { x: 0, y: 0, width: 0, height: 0 }),
    {
        Scroll { content: Vec::new(), bound: Rect::new(0, 0, 0, 0), scroll }
    }

    pub fn push(&mut self, comp: Widget)
        ensures
            final(self).content@ == old(self).content@.push(comp),
            final(self).bound == old(self).bound,
            final(self).scroll == old(self).scroll,
    {
        self.content.push(comp);
    }

    /// The current offset.
    pub fn get_scroll(&self) -> (r: ScrollState)
        ensures
            r == self.scroll,
    {
        self.scroll
    }

    /// Total height of the children at `width` columns.
    pub fn inner_height(&self, width: u16) -> (r: u16)
        ensures
            r == self.inner_height_spec(width as int),
    {
        if width == 0 {
            return 0;
        }
        let mut acc: u16 = 0;
        let mut i: usize = 0;
        while i < self.content.len()
            invariant
                0 <= i <= self.content@.len(),
                acc == sat16(heights_sum(self.content@.take(i as int), width as int)),
                heights_sum(self.content@.take(i as int), width as int) >= 0,
            decreases self.content@.len() - i,
        {
            assert(self.content@.take(i + 1).drop_last() =~= self.content@.take(i as int));
            let h = self.content[i].height(width);
            acc = acc.saturating_add(h);
            i = i + 1;
        }
        assert(self.content@.take(self.content@.len() as int) =~= self.content@);
        acc
    }

    fn width_for_children(&self) -> (r: u16)
        ensures
            r == self.content_width(),
    {
        if self.bound.width == 0 {
            0
        } else {
            self.bound.width - 1
        }
    }

    /// Brings the offset back inside the content for the current bound.
    pub fn cap_bound(&mut self)
        ensures
            final(self).content == old(self).content,
            final(self).bound == old(self).bound,
            final(self).scroll.scroll == capped_offset(
                old(self).inner_height_spec(old(self).content_width()),
                old(self).bound.height as int,
                old(self).scroll.scroll as int,
            ),
    {
        let h = self.inner_height(self.width_for_children());
        let vh = self.bound.height;
        if h <= vh {
            self.scroll.set(0);
        } else if h as u32 <= vh as u32 + self.scroll.get() as u32 {
            self.scroll.set(h - vh);
        }
    }

    /// Places the container in `area` and brings the offset back inside the content.
    pub fn set_bound(&mut self, area: Rect)
        ensures
            final(self).content == old(self).content,
            final(self).bound == area,
            final(self).scroll.scroll == capped_offset(
                final(self).inner_height_spec(final(self).content_width()),
                area.height as int,
                old(self).scroll.scroll as int,
            ),
    {
        self.bound = area;
        self.cap_bound();
    }

    fn start_of(&self, index: usize, width: u16) -> (r: u16)
        requires
            index <= self.content@.len(),
        ensures
            r == sat16(heights_sum(self.content@.take(index as int), width as int)),
    {
        let mut acc: u16 = 0;
        let mut i: usize = 0;
        while i < index
            invariant
                0 <= i <= index <= self.content@.len(),
                acc == sat16(heights_sum(self.content@.take(i as int), width as int)),
                heights_sum(self.content@.take(i as int), width as int) >= 0,
            decreases index - i,
        {
            assert(self.content@.take(i + 1).drop_last() =~= self.content@.take(i as int));
            let h = self.content[i].height(width);
            acc = acc.saturating_add(h);
            i = i + 1;
        }
        acc
    }

    /// Scrolls so that child `index` (the last child, for an index past the end) shows.
    /// An empty container keeps its offset.
    pub fn scroll_into_view(&mut self, index: usize)
        ensures
            final(self).content == old(self).content,
            final(self).bound == old(self).bound,
            old(self).content@.len() == 0 ==> final(self).scroll == old(self).scroll,
            old(self).content@.len() > 0 ==> ({
                let i = if index >= old(self).content@.len() { old(self).content@.len() - 1 } else { index as int };
                final(self).scroll.scroll == into_view_offset(
                    old(self).child_start(i),
                    old(self).child_end(i),
                    old(self).scroll.scroll as int,
                    old(self).bound.height as int,
                )
            }),
    {
        let n = self.content.len();
        if n == 0 {
            return;
        }
        let index = if index >= n { n - 1 } else { index };
        let w = self.width_for_children();
        let start = self.start_of(index, w);
        let end = start.saturating_add(self.content[index].height(w));
        let off = self.scroll.get();
        let vh = self.bound.height;
        let new_offset = if start < off {
            start
        } else if end as u32 > off as u32 + vh as u32 {
            end - vh
        } else {
            off
        };
        self.scroll.set(new_offset);
    }
}

/// After every resize the offset lies between zero and the height of the content
/// past the viewport (zero when everything fits).
pub proof fn lemma_capped_offset_in_range(h: int, vh: int, off: int)
    requires
        0 <= h,
        0 <= vh,
        0 <= off,
    ensures
        0 <= capped_offset(h, vh, off),
        capped_offset(h, vh, off) <= if h > vh { h - vh } else { 0 },
{
}

/// Scrolling child `i` into view leaves all its rows inside the viewport whenever
/// the child is no taller than the viewport. (Contents whose rows reach the
/// largest coordinate are left out.)
pub proof fn lemma_into_view_shows_child(s: Scroll, i: int)
    requires
        0 <= i < s.content@.len(),
        heights_sum(s.content@.take(i + 1), s.content_width()) < COORD_MAX,
        s.content@[i].height_spec(s.content_width()) <= s.bound.height,
    ensures
        ({
            let off = into_view_offset(s.child_start(i), s.child_end(i), s.scroll.scroll as int, s.bound.height as int);
            &&& off <= s.child_start(i)
            &&& s.child_end(i) <= off + s.bound.height
        }),
{
    lemma_heights_nonneg(s.content@.take(i), s.content_width());
    assert(s.content@.take(i + 1).drop_last() =~= s.content@.take(i));
    lemma_height_nonneg(s.content@[i], s.content_width());
}

proof fn lemma_height_nonneg(w: Widget, width: int)
    ensures
        w.height_spec(width) >= 0,
{
    match w {
        Widget::Text(t) => {
            crate::text::lemma_row_range(crate::text::metrics(t.tokens@), width);
            assert(crate::text::text_height(crate::text::metrics(t.tokens@), width) >= 1);
            assert(w.height_spec(width) == crate::text::text_height(crate::text::metrics(t.tokens@), width));
        },
        Widget::Entry(e) => {
            if width > 2 {
                crate::text::lemma_row_range(crate::text::runs_metrics(crate::widgets::title_runs(e.subject)), width - 2);
                match crate::widgets::progress_of(e.subject, e.coll) {
                    Some(p) => {
                        let hint = seq![(crate::widgets::hint_text(p.total, p.current), crate::style::Style::plain_spec())];
                        crate::text::lemma_row_range(crate::text::runs_metrics(hint), width - 2);
                        let c = crate::widgets::unit_cells(p.total, p.current);
                        assert(c >= 0);
                        assert((c + (width - 2) - 1) / (width - 2) >= 0) by (nonlinear_arith)
                            requires c >= 0, width - 2 >= 1;
                    },
                    None => {},
                }
            }
        },
    }
}

proof fn lemma_heights_nonneg(ws: Seq<Widget>, width: int)
    ensures
        heights_sum(ws, width) >= 0,
    decreases ws.len(),
{
    if ws.len() > 0 {
        lemma_heights_nonneg(ws.drop_last(), width);
        lemma_height_nonneg(ws.last(), width);
    }
}

impl Scroll {
    pub open spec fn intercept_spec(&self, x: int, y: int, btn: MouseButton) -> Option<ScrollEvent> {
        let b = self.bound;
        let h = self.inner_height_spec(self.content_width());
        if btn == MouseButton::WheelUp {
            Some(ScrollEvent::ScrollUp)
        } else if btn == MouseButton::WheelDown {
            Some(ScrollEvent::ScrollDown)
        } else if y < b.y || b.width == 0 {
            None
        } else if x == b.x + b.width - 1 {
            if h > b.height {
                Some(ScrollEvent::ScrollTo(scrollbar_target(y - b.y, h, b.height as int) as u16))
            } else {
                None
            }
        } else if x < b.x + b.width - 1 {
            let i = hit_child(self.content@, self.content_width(), y - b.y + self.scroll.scroll);
            if i >= 0 {
                Some(ScrollEvent::Sub(i as usize))
            } else {
                None
            }
        } else {
            None
        }
    }

    /// What a pointer event at `(x, y)` means: wheel turns scroll whatever the
    /// position; a click on the scroll bar asks for the offset at that height; a
    /// click on the content picks the child under it.
    #[verifier::loop_isolation(false)]
    pub fn intercept(&self, x: u16, y: u16, btn: MouseButton) -> (r: Option<ScrollEvent>)
        ensures
            r == self.intercept_spec(x as int, y as int, btn),
    {
        match btn {
            MouseButton::WheelUp => { return Some(ScrollEvent::ScrollUp); },
            MouseButton::WheelDown => { return Some(ScrollEvent::ScrollDown); },
            _ => {},
        }
        let b = self.bound;
        if y < b.y || b.width == 0 {
            return None;
        }
        let w = self.width_for_children();
        let h = self.inner_height(w);
        let bar: u32 = b.x as u32 + b.width as u32 - 1;
        if x as u32 == bar {
            if h > b.height {
                let pos: u32 = (y - b.y) as u32;
                let vh: u32 = b.height as u32;
                let span: u32 = (h - b.height) as u32;
                let target: u32 = if pos == 0 {
                    0
                } else if pos + 1 >= vh {
                    span
                } else {
                    assert(pos * span / (vh - 2) <= span) by (nonlinear_arith)
                        requires 1 <= pos, pos < vh - 1, span >= 0, vh >= 3;
                    assert(pos * span <= 65535 * 65535) by (nonlinear_arith)
                        requires pos <= 65535, span <= 65535;
                    pos * span / (vh - 2)
                };
                return Some(ScrollEvent::ScrollTo(target as u16));
            }
            return None;
        } else if (x as u32) < bar {
            let mut yy: u32 = (y - b.y) as u32 + self.scroll.get() as u32;
            let ghost y0 = yy as int;
            let mut i: usize = 0;
            assert(self.content@.skip(0) =~= self.content@);
            while i < self.content.len()
                invariant
                    0 <= i <= self.content@.len(),
                    w == self.content_width(),
                    hit_child(self.content@, w as int, y0) == if hit_child(self.content@.skip(i as int), w as int, yy as int) < 0 {
                        -1
                    } else {
                        i + hit_child(self.content@.skip(i as int), w as int, yy as int)
                    },
                decreases self.content@.len() - i,
            {
                assert(self.content@.skip(i as int).drop_first() =~= self.content@.skip(i + 1));
                assert(self.content@.skip(i as int)[0] == self.content@[i as int]);
                let hi = self.content[i].height(w);
                if hi as u32 > yy {
                    assert(hit_child(self.content@.skip(i as int), w as int, yy as int) == 0);
                    return Some(ScrollEvent::Sub(i));
                }
                yy = yy - hi as u32;
                i = i + 1;
            }
            assert(self.content@.skip(i as int).len() == 0);
        }
        None
    }
}

/// `n` blank cells.
pub open spec fn blank(n: int) -> Cells {
    Seq::new(n as nat, |i: int| (seq![' '], Style::plain_spec()))
}

/// The cells of a child drawn on its own, `w` wide and `h` tall.
pub open spec fn child_cells(c: Widget, w: int, h: int) -> Cells {
    let r = Rect { x: 0, y: 0, width: w as u16, height: h as u16 };
    c.paint_spec(blank(w * h), r, r)
}

/// Cells after copying columns `0 .. n` of row `iy` of `sub` (a grid `w` wide) to row `y` from column `x0`.
pub open spec fn copy_cols(cells: Cells, ba: Rect, x0: int, y: int, sub: Cells, w: int, iy: int, n: int) -> Cells
    decreases n,
{
    if n <= 0 {
        cells
    } else {
        written(copy_cols(cells, ba, x0, y, sub, w, iy, n - 1), ba, x0 + n - 1, y, sub[iy * w + n - 1])
    }
}

/// Cells after copying rows `0 .. n` of a child's cells `sub` (`w` wide), whose first
/// row is content row `dy`, into `area` scrolled by `off`; rows outside the viewport are skipped.
pub open spec fn copy_rows(cells: Cells, ba: Rect, area: Rect, sub: Cells, w: int, dy: int, off: int, n: int) -> Cells
    decreases n,
{
    if n <= 0 {
        cells
    } else {
        let prev = copy_rows(cells, ba, area, sub, w, dy, off, n - 1);
        let row = n - 1 + dy - off;
        if row < 0 || row >= area.height {
            prev
        } else {
            copy_cols(prev, ba, area.x as int, area.y + row, sub, w, n - 1, w)
        }
    }
}

/// Cells after drawing the children `ws`, `w` wide, one below the other, into `area` scrolled by `off`.
pub open spec fn paint_children(cells: Cells, ba: Rect, area: Rect, ws: Seq<Widget>, w: int, off: int) -> Cells
    decreases ws.len(),
{
    if ws.len() == 0 {
        cells
    } else {
        let prev = paint_children(cells, ba, area, ws.drop_last(), w, off);
        let ch = ws.last().height_spec(w);
        copy_rows(prev, ba, area, child_cells(ws.last(), w, ch), w, heights_sum(ws.drop_last(), w), off, ch)
    }
}

/// Top row of the two-row thumb of a scroll bar `vh` rows tall, for content `h` rows tall at offset `off`.
pub open spec fn thumb_pos(off: int, h: int, vh: int) -> int {
    let vacant = if vh >= 2 { vh - 2 } else { 0 };
    if off == 0 || vacant == 0 {
        0
    } else if off >= h - vh {
        vacant
    } else {
        (off - 1) * vacant / (h - vh) + 1
    }
}

/// Cells after drawing rows `0 .. n` of the scroll bar in the last column of `area`.
pub open spec fn bar_rows(cells: Cells, ba: Rect, area: Rect, pos: int, n: int) -> Cells
    decreases n,
{
    if n <= 0 {
        cells
    } else {
        let y = n - 1;
        written(
            bar_rows(cells, ba, area, pos, n - 1),
            ba,
            area.x + area.width - 1,
            area.y + y,
            (if pos <= y < pos + 2 { "█"@ } else { "│"@ }, Style::plain_spec()),
        )
    }
}

impl Scroll {
    /// Cells after drawing the container into `area`: the children, clipped to the
    /// viewport at the current offset, and the scroll bar when the content overflows.
    /// Nothing is drawn into an area less than three columns wide or with no row.
    pub open spec fn paint_spec(&self, cells: Cells, ba: Rect, area: Rect) -> Cells {
        if area.height < 1 || area.width < 3 {
            cells
        } else {
            let w = area.width - 1;
            let h = self.inner_height_spec(w);
            let c1 = paint_children(cells, ba, area, self.content@, w, self.scroll.scroll as int);
            if h > area.height {
                bar_rows(c1, ba, area, thumb_pos(self.scroll.scroll as int, h, area.height as int), area.height as int)
            } else {
                c1
            }
        }
    }

    /// Draws the container into `area`.
    pub fn draw(&self, area: Rect, buf: &mut Buffer)
        requires
            old(buf).wf(),
            self.content@.len() < 0x1_0000_0000,
        ensures
            final(buf).wf(),
            final(buf).area == old(buf).area,
            final(buf).cells() == self.paint_spec(old(buf).cells(), old(buf).area, area),
    {
        if area.height < 1 || area.width < 3 {
            return;
        }
        let w: u16 = area.width - 1;
        let off: u64 = self.scroll.get() as u64;
        let ghost ba = buf.area;
        let mut dy: u64 = 0;
        let mut i: usize = 0;
        while i < self.content.len()
            invariant
                0 <= i <= self.content@.len(),
                self.content@.len() < 0x1_0000_0000,
                w == area.width - 1,
                w >= 2,
                off == self.scroll.scroll,
                buf.wf(),
                buf.area == ba,
                ba == old(buf).area,
                dy == heights_sum(self.content@.take(i as int), w as int),
                dy <= i * 65535,
                buf.cells() == paint_children(old(buf).cells(), ba, area, self.content@.take(i as int), w as int, off as int),
            decreases self.content@.len() - i,
        {
            let ghost pre = self.content@.take(i as int);
            assert(self.content@.take(i + 1).drop_last() =~= pre);
            assert(self.content@.take(i + 1).last() == self.content@[i as int]);
            let comp = &self.content[i];
            let ch: u16 = comp.height(w);
            let rect = Rect::new(0, 0, w, ch);
            assert(w * ch <= 65535 * 65535) by (nonlinear_arith)
                requires w <= 65535, ch <= 65535;
            let mut sub = Buffer::empty(rect);
            proof {
                assert(sub.cells() =~= blank(w * ch));
            }
            comp.draw(rect, &mut sub);
            let ghost subc = sub.cells();
            assert(subc == child_cells(*comp, w as int, ch as int));
            let ghost base = buf.cells();
            let mut iy: u16 = 0;
            while iy < ch
                invariant
                    0 <= iy <= ch,
                    w >= 2,
                    rect == (Rect { x: 0, y: 0, width: w, height: ch }),
                    sub.wf(),
                    sub.area == rect,
                    sub.cells() == subc,
                    buf.wf(),
                    buf.area == ba,
                    dy <= 0x1_0000_0000 * 65535,
                    buf.cells() == copy_rows(base, ba, area, subc, w as int, dy as int, off as int, iy as int),
                decreases ch - iy,
            {
                let pos: u64 = iy as u64 + dy;
                if pos >= off && pos - off < area.height as u64 {
                    let row: u32 = (pos - off) as u32;
                    let ghost before = buf.cells();
                    let mut x: u16 = 0;
                    while x < w
                        invariant
                            0 <= x <= w,
                            iy < ch,
                            rect == (Rect { x: 0, y: 0, width: w, height: ch }),
                            sub.wf(),
                            sub.area == rect,
                            sub.cells() == subc,
                            buf.wf(),
                            buf.area == ba,
                            row < area.height,
                            buf.cells() == copy_cols(before, ba, area.x as int, area.y + row, subc, w as int, iy as int, x as int),
                        decreases w - x,
                    {
                        let c = sub.get(x, iy);
                        proof {
                            crate::buffer::lemma_index_in_bounds(rect, x as int, iy as int);
                            assert(crate::buffer::cell_index(rect, x as int, iy as int) == iy * w + x);
                        }
                        let cell = Cell { symbol: c.symbol.clone(), style: c.style };
                        buf.set(area.x as u32 + x as u32, area.y as u32 + row, cell);
                        x = x + 1;
                    }
                }
                iy = iy + 1;
            }
            dy = dy + ch as u64;
            i = i + 1;
        }
        assert(self.content@.take(self.content@.len() as int) =~= self.content@);
        let h = self.inner_height(w);
        if h > area.height {
            let vh: u32 = area.height as u32;
            let span: u32 = (h - area.height) as u32;
            let vacant: u32 = if vh >= 2 { vh - 2 } else { 0 };
            let o: u32 = self.scroll.get() as u32;
            let pos: u32 = if o == 0 || vacant == 0 {
                0
            } else if o >= span {
                vacant
            } else {
                assert(((o - 1) * vacant) / (span as int) <= vacant) by (nonlinear_arith)
                    requires 1 <= o, o < span, vacant >= 0;
                assert((o - 1) * vacant <= 65535 * 65535) by (nonlinear_arith)
                    requires o <= 65535, vacant <= 65535;
                (o - 1) * vacant / span + 1
            };
            let bx: u32 = area.x as u32 + area.width as u32 - 1;
            let ghost before = buf.cells();
            let mut y: u32 = 0;
            while y < vh
                invariant
                    0 <= y <= vh,
                    vh == area.height,
                    bx == area.x + area.width - 1,
                    buf.wf(),
                    buf.area == ba,
                    buf.cells() == bar_rows(before, ba, area, pos as int, y as int),
                decreases vh - y,
            {
                let sym = if y >= pos && y < pos + 2 { String::from_str("█") } else { String::from_str("│") };
                buf.set(bx, area.y as u32 + y, Cell { symbol: sym, style: Style::plain() });
                y = y + 1;
            }
        }
    }
}

} // verus!
